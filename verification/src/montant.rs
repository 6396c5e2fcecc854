//! Montants et kilométrages en centièmes : lecture d'un texte décimal,
//! arrondi à l'unité pour l'affichage et écriture décimale la plus courte.
use vstd::prelude::*;
use vstd::string::*;
use crate::nombre::{
    est_chiffre, que_des_chiffres, valeur_decimale, valeur_chiffre, ecriture_naturel,
    ecrire_naturel, lire_chiffres,
};

verus! {

/// Plus grande valeur absolue d'un montant, en centièmes.
pub open spec fn montant_max() -> int {
    i64::MAX as int
}

/// Premier point décimal à partir de `i` (ou la longueur).
pub open spec fn premier_point(s: Seq<char>, i: int) -> int
    decreases s.len() - i,
{
    if i >= s.len() || i < 0 {
        s.len() as int
    } else if s[i] == '.' {
        i
    } else {
        premier_point(s, i + 1)
    }
}

/// Le texte sans son signe de tête.
pub open spec fn sans_signe(s: Seq<char>) -> Seq<char> {
    if s.len() > 0 && (s[0] == '+' || s[0] == '-') {
        s.drop_first()
    } else {
        s
    }
}

/// Centièmes donnés par les décimales (au-delà de deux, elles sont ignorées).
pub open spec fn centiemes(f: Seq<char>) -> nat {
    (if f.len() >= 1 {
        valeur_chiffre(f[0]) * 10
    } else {
        0
    }) + (if f.len() >= 2 {
        valeur_chiffre(f[1])
    } else {
        0
    })
}

/// Lecture d'un montant décimal en centièmes : signe facultatif, partie
/// entière, puis point et décimales facultatifs, avec au moins un chiffre.
pub open spec fn lecture_montant(s: Seq<char>) -> Option<int> {
    let c = sans_signe(s);
    let p = premier_point(c, 0);
    let ent = c.take(p);
    let frac = if p < c.len() {
        c.skip(p + 1)
    } else {
        Seq::empty()
    };
    if que_des_chiffres(ent) && que_des_chiffres(frac) && ent.len() + frac.len() > 0 {
        let m: int = (valeur_decimale(ent) * 100 + centiemes(frac)) as int;
        Some(
            if s.len() > 0 && s[0] == '-' {
                -m
            } else {
                m
            },
        )
    } else {
        None
    }
}

/// Montant lu, s'il tient dans l'intervalle des montants.
pub open spec fn montant_lu(s: Seq<char>) -> Option<i64> {
    match lecture_montant(s) {
        Some(v) => if -montant_max() <= v <= montant_max() {
            Some(v as i64)
        } else {
            None
        },
        None => None,
    }
}

proof fn lemme_point(s: Seq<char>, i: int)
    requires
        0 <= i <= s.len(),
    ensures
        i <= premier_point(s, i) <= s.len(),
        premier_point(s, i) < s.len() ==> s[premier_point(s, i)] == '.',
        forall|k: int| i <= k < premier_point(s, i) ==> s[k] != '.',
    decreases s.len() - i,
{
    if i < s.len() && s[i] != '.' {
        lemme_point(s, i + 1);
    }
}

/// Lecture d'un montant décimal en centièmes.
pub fn lire_montant(s: &str) -> (r: Option<i64>)
    ensures
        r == montant_lu(s@),
{
    let n = s.unicode_len();
    let debut: usize = if n > 0 && (s.get_char(0) == '+' || s.get_char(0) == '-') {
        1
    } else {
        0
    };
    let negatif = n > 0 && s.get_char(0) == '-';
    let ghost c = sans_signe(s@);
    assert(c =~= s@.skip(debut as int));
    let mut p: usize = debut;
    while p < n && s.get_char(p) != '.'
        invariant
            n == s@.len(),
            debut <= p <= n,
            c == s@.skip(debut as int),
            premier_point(c, 0) == premier_point(c, p - debut),
        decreases n - p,
    {
        p = p + 1;
    }
    proof {
        lemme_point(c, 0);
    }
    let ghost pp = premier_point(c, 0);
    assert(pp == p - debut);
    let fin_frac: usize = n;
    let debut_frac: usize = if p < n {
        p + 1
    } else {
        n
    };
    assert(c.take(pp) =~= s@.subrange(debut as int, p as int));
    assert((if pp < c.len() {
        c.skip(pp + 1)
    } else {
        Seq::<char>::empty()
    }) =~= s@.subrange(debut_frac as int, n as int));
    if p == debut && debut_frac == n {
        return None;
    }
    let borne_ent: u64 = 92233720368547758;
    let ent = match lire_chiffres(s, debut, p, borne_ent) {
        Some(v) => v,
        None => {
            proof {
                let e = s@.subrange(debut as int, p as int);
                let f = s@.subrange(debut_frac as int, n as int);
                if que_des_chiffres(e) && que_des_chiffres(f) {
                    assert(valeur_decimale(e) > 92233720368547758);
                    let m: int = (valeur_decimale(e) * 100 + centiemes(f)) as int;
                    assert(m > montant_max());
                    assert(lecture_montant(s@) == Some(
                        if s@.len() > 0 && s@[0] == '-' {
                            -m
                        } else {
                            m
                        },
                    ));
                }
            }
            return None;
        },
    };
    proof {
        let f = s@.subrange(debut_frac as int, n as int);
        if !que_des_chiffres(f) {
            assert(lecture_montant(s@) is None);
        }
    }
    // décimales : toutes des chiffres, seules les deux premières comptent
    let mut k: usize = debut_frac;
    while k < fin_frac
        invariant
            fin_frac == n,
            n == s@.len(),
            debut_frac <= k <= n,
            forall|j: int| debut_frac <= j < k ==> est_chiffre(#[trigger] s@[j]),
            !que_des_chiffres(s@.subrange(debut_frac as int, n as int)) ==> montant_lu(s@) is None,
        decreases n - k,
    {
        let ch = s.get_char(k);
        if !('0' <= ch && ch <= '9') {
            assert(!que_des_chiffres(s@.subrange(debut_frac as int, n as int))) by {
                assert(s@.subrange(debut_frac as int, n as int)[k - debut_frac] == ch);
            }
            return None;
        }
        k = k + 1;
    }
    let ghost frac = s@.subrange(debut_frac as int, n as int);
    assert(que_des_chiffres(frac)) by {
        assert forall|j: int| 0 <= j < frac.len() implies est_chiffre(#[trigger] frac[j]) by {
            assert(frac[j] == s@[debut_frac + j]);
        }
    }
    let mut cts: u64 = 0;
    if debut_frac < n {
        let d0 = s.get_char(debut_frac);
        assert(frac[0] == d0);
        cts = (d0 as u32 - '0' as u32) as u64 * 10;
        if debut_frac + 1 < n {
            let d1 = s.get_char(debut_frac + 1);
            assert(frac[1] == d1);
            cts = cts + (d1 as u32 - '0' as u32) as u64;
        }
    }
    assert(cts == centiemes(frac));
    if ent > (0x7FFF_FFFF_FFFF_FFFFu64 - cts) / 100 {
        proof {
            assert(ent * 100 + cts > montant_max()) by (nonlinear_arith)
                requires
                    ent > (0x7FFF_FFFF_FFFF_FFFFu64 - cts) / 100,
                    cts <= 99,
            ;
        }
        return None;
    }
    proof {
        assert(ent * 100 + cts <= montant_max()) by (nonlinear_arith)
            requires
                ent <= (0x7FFF_FFFF_FFFF_FFFFu64 - cts) / 100,
                cts <= 99,
        ;
    }
    let m = (ent * 100 + cts) as i64;
    if negatif {
        Some(-m)
    } else {
        Some(m)
    }
}

/// Arrondi à l'unité d'une valeur en centièmes, demi vers le pair (comme
/// l'affichage `{:.0}`), en valeur absolue.
pub open spec fn unites_arrondies(v: int) -> nat {
    let a = if v < 0 {
        -v
    } else {
        v
    };
    let q = a / 100;
    let r = a % 100;
    (if r > 50 || (r == 50 && q % 2 == 1) {
        q + 1
    } else {
        q
    }) as nat
}

/// Écriture arrondie à l'unité (`{:.0}`) d'une valeur en centièmes.
pub open spec fn ecriture_arrondie(v: int) -> Seq<char> {
    if v < 0 {
        seq!['-'] + ecriture_naturel(unites_arrondies(v))
    } else {
        ecriture_naturel(unites_arrondies(v))
    }
}

/// Écriture arrondie à l'unité d'une valeur en centièmes.
pub fn texte_arrondi(v: i128) -> (r: String)
    requires
        v > i128::MIN,
    ensures
        r@ == ecriture_arrondie(v as int),
{
    let mut r = String::new();
    let a: u128 = if v < 0 {
        (-v) as u128
    } else {
        v as u128
    };
    let q = a / 100;
    let reste = a % 100;
    let u = if reste > 50 || (reste == 50 && q % 2 == 1) {
        q + 1
    } else {
        q
    };
    if v < 0 {
        r.append("-");
        proof {
            reveal_strlit("-");
        }
    }
    ecrire_naturel(u, &mut r);
    assert(r@ =~= ecriture_arrondie(v as int));
    r
}

/// Le texte « `{:.0}` DA » d'un montant en centièmes.
pub open spec fn ecriture_da(v: int) -> Seq<char> {
    ecriture_arrondie(v) + " DA"@
}

/// Texte d'un montant arrondi suivi de « DA ».
pub fn texte_da(v: i128) -> (r: String)
    requires
        v > i128::MIN,
    ensures
        r@ == ecriture_da(v as int),
{
    let mut r = texte_arrondi(v);
    r.append(" DA");
    r
}

/// Texte d'un total éventuel : le montant arrondi suivi de « DA », ou « — »
/// quand le total ne se calcule pas (ou vaut la plus petite valeur sur 128
/// bits, dont l'opposé ne s'écrit pas).
pub open spec fn ecriture_total(v: Option<i128>) -> Seq<char> {
    match v {
        Some(x) => if x > i128::MIN {
            ecriture_da(x as int)
        } else {
            "—"@
        },
        None => "—"@,
    }
}

/// Texte d'un total éventuel, en « DA ».
pub fn texte_total(v: Option<i128>) -> (r: String)
    ensures
        r@ == ecriture_total(v),
{
    match v {
        Some(x) => if x > i128::MIN {
            texte_da(x)
        } else {
            String::from_str("—")
        },
        None => String::from_str("—"),
    }
}

/// Écriture décimale la plus courte d'une valeur en centièmes, comme le
/// `to_string` d'un nombre à virgule : « 3500 », « 3500.5 », « 0.05 ».
pub open spec fn ecriture_decimale(v: int) -> Seq<char> {
    let a = if v < 0 {
        -v
    } else {
        v
    };
    let q = (a / 100) as nat;
    let r = (a % 100) as nat;
    let corps = if r == 0 {
        ecriture_naturel(q)
    } else if r % 10 == 0 {
        ecriture_naturel(q) + seq!['.'] + ecriture_naturel(r / 10)
    } else {
        ecriture_naturel(q) + seq!['.'] + ecriture_naturel(r / 10) + ecriture_naturel(r % 10)
    };
    if v < 0 {
        seq!['-'] + corps
    } else {
        corps
    }
}

/// Écriture décimale la plus courte d'une valeur en centièmes.
pub fn texte_decimal(v: i64) -> (r: String)
    ensures
        r@ == ecriture_decimale(v as int),
{
    let mut r = String::new();
    let a: u64 = if v < 0 {
        (-(v as i128)) as u64
    } else {
        v as u64
    };
    let q = a / 100;
    let reste = a % 100;
    if v < 0 {
        r.append("-");
        proof {
            reveal_strlit("-");
        }
    }
    ecrire_naturel(q as u128, &mut r);
    if reste != 0 {
        r.append(".");
        proof {
            reveal_strlit(".");
        }
        ecrire_naturel((reste / 10) as u128, &mut r);
        if reste % 10 != 0 {
            ecrire_naturel((reste % 10) as u128, &mut r);
        }
    }
    assert(r@ =~= ecriture_decimale(v as int));
    r
}

} // verus!
