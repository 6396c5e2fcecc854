//! Lecture et écriture des nombres : entiers décimaux et montants en centimes.
use vstd::prelude::*;
use vstd::string::*;

verus! {

/// Caractère chiffre décimal.
pub open spec fn est_chiffre(c: char) -> bool {
    '0' <= c && c <= '9'
}

/// Valeur d'un chiffre décimal.
pub open spec fn valeur_chiffre(c: char) -> nat {
    (c as int - '0' as int) as nat
}

/// Tous les caractères sont des chiffres.
pub open spec fn que_des_chiffres(s: Seq<char>) -> bool {
    forall|i: int| 0 <= i < s.len() ==> est_chiffre(#[trigger] s[i])
}

/// Valeur décimale d'une suite de chiffres.
pub open spec fn valeur_decimale(s: Seq<char>) -> nat
    decreases s.len(),
{
    if s.len() == 0 {
        0
    } else {
        valeur_decimale(s.drop_last()) * 10 + valeur_chiffre(s.last())
    }
}

/// Lecture d'un entier non signé selon `u32::from_str` et ses semblables : un
/// `+` facultatif suivi d'au moins un chiffre, sans autre caractère.
pub open spec fn lecture_naturel(s: Seq<char>) -> Option<nat> {
    let corps = if s.len() > 0 && s[0] == '+' {
        s.drop_first()
    } else {
        s
    };
    if corps.len() > 0 && que_des_chiffres(corps) {
        Some(valeur_decimale(corps))
    } else {
        None
    }
}

/// Lecture d'un entier signé selon `i32::from_str` : un signe `+` ou `-`
/// facultatif suivi d'au moins un chiffre.
pub open spec fn lecture_entier(s: Seq<char>) -> Option<int> {
    if s.len() > 0 && s[0] == '-' {
        let corps = s.drop_first();
        if corps.len() > 0 && que_des_chiffres(corps) {
            Some(-(valeur_decimale(corps) as int))
        } else {
            None
        }
    } else {
        match lecture_naturel(s) {
            Some(v) => Some(v as int),
            None => None,
        }
    }
}

proof fn lemme_valeur_prefixe(s: Seq<char>, k: int)
    requires
        0 <= k < s.len(),
    ensures
        valeur_decimale(s.take(k + 1)) == valeur_decimale(s.take(k)) * 10 + valeur_chiffre(s[k]),
{
    assert(s.take(k + 1).drop_last() =~= s.take(k));
}

proof fn lemme_valeur_croissante(s: Seq<char>, k: int)
    requires
        0 <= k <= s.len(),
    ensures
        valeur_decimale(s.take(k)) <= valeur_decimale(s),
    decreases s.len() - k,
{
    if k < s.len() {
        lemme_valeur_prefixe(s, k);
        lemme_valeur_croissante(s, k + 1);
    } else {
        assert(s.take(k) =~= s);
    }
}

/// Lit les chiffres de `s` entre `debut` et `fin` ; `None` si un caractère
/// n'est pas un chiffre ou si la valeur dépasse `borne` (vide : zéro).
pub fn lire_chiffres(s: &str, debut: usize, fin: usize, borne: u64) -> (r: Option<u64>)
    requires
        debut <= fin <= s@.len(),
        borne >= 9,
    ensures
        ({
            let corps = s@.subrange(debut as int, fin as int);
            match r {
                Some(v) => que_des_chiffres(corps) && v == valeur_decimale(corps) && v <= borne,
                None => !(que_des_chiffres(corps) && valeur_decimale(corps) <= borne),
            }
        }),
{
    let ghost corps = s@.subrange(debut as int, fin as int);
    let mut i: usize = debut;
    let mut v: u64 = 0;
    assert(corps.take(0) =~= Seq::<char>::empty());
    while i < fin
        invariant
            fin <= s@.len(),
            debut <= i <= fin,
            borne >= 9,
            corps == s@.subrange(debut as int, fin as int),
            que_des_chiffres(corps.take(i - debut)),
            v == valeur_decimale(corps.take(i - debut)),
            v <= borne,
        decreases fin - i,
    {
        let c = s.get_char(i);
        proof {
            assert(corps[i - debut] == c);
        }
        if !('0' <= c && c <= '9') {
            assert(!que_des_chiffres(corps));
            return None;
        }
        let d = (c as u32 - '0' as u32) as u64;
        proof {
            lemme_valeur_prefixe(corps, i - debut);
            assert(que_des_chiffres(corps.take(i - debut + 1)));
        }
        if v > (borne - d) / 10 {
            proof {
                assert(v * 10 + d > borne) by (nonlinear_arith)
                    requires
                        v > (borne - d) / 10,
                        d <= 9,
                        d <= borne,
                ;
                if que_des_chiffres(corps) {
                    lemme_valeur_croissante(corps, i - debut + 1);
                }
            }
            return None;
        }
        proof {
            assert(v * 10 + d <= borne) by (nonlinear_arith)
                requires
                    v <= (borne - d) / 10,
                    d <= borne,
            ;
        }
        v = v * 10 + d;
        i = i + 1;
    }
    assert(corps.take(fin - debut) =~= corps);
    Some(v)
}

/// `u32::from_str` : lecture d'un entier non signé sur 32 bits.
pub fn lire_u32(s: &str) -> (r: Option<u32>)
    ensures
        r == (match lecture_naturel(s@) {
            Some(v) => if v <= u32::MAX {
                Some(v as u32)
            } else {
                None
            },
            None => None,
        }),
{
    let n = s.unicode_len();
    let debut: usize = if n > 0 && s.get_char(0) == '+' {
        1
    } else {
        0
    };
    assert(s@.skip(debut as int) =~= (if s@.len() > 0 && s@[0] == '+' {
        s@.drop_first()
    } else {
        s@
    }));
    if debut == n {
        return None;
    }
    assert(s@.subrange(debut as int, n as int) =~= s@.skip(debut as int));
    match lire_chiffres(s, debut, n, 0xFFFF_FFFF) {
        Some(v) => Some(v as u32),
        None => None,
    }
}

/// `i32::from_str` : lecture d'un entier signé sur 32 bits.
pub fn lire_i32(s: &str) -> (r: Option<i32>)
    ensures
        r == (match lecture_entier(s@) {
            Some(v) => if i32::MIN <= v <= i32::MAX {
                Some(v as i32)
            } else {
                None
            },
            None => None,
        }),
{
    let n = s.unicode_len();
    if n > 0 && s.get_char(0) == '-' {
        assert(s@.subrange(1, n as int) =~= s@.drop_first());
        if n == 1 {
            return None;
        }
        match lire_chiffres(s, 1, n, 0x8000_0000) {
            Some(v) => {
                let r = -(v as i64);
                Some(r as i32)
            },
            None => None,
        }
    } else {
        let debut: usize = if n > 0 && s.get_char(0) == '+' {
            1
        } else {
            0
        };
        assert(s@.skip(debut as int) =~= (if s@.len() > 0 && s@[0] == '+' {
            s@.drop_first()
        } else {
            s@
        }));
        if debut == n {
            return None;
        }
        assert(s@.subrange(debut as int, n as int) =~= s@.skip(debut as int));
        match lire_chiffres(s, debut, n, 0x7FFF_FFFF) {
            Some(v) => Some(v as i32),
            None => None,
        }
    }
}

/// Chiffre décimal `d` sous forme de caractère.
pub open spec fn car_chiffre(d: nat) -> char {
    (('0' as int) + d) as char
}

/// Écriture sur au moins quatre chiffres, complétée de zéros à gauche (`{:04}`).
pub open spec fn ecriture_4(n: nat) -> Seq<char> {
    let e = ecriture_naturel(n);
    if e.len() < 4 {
        Seq::new((4 - e.len()) as nat, |i: int| '0') + e
    } else {
        e
    }
}

/// Écriture décimale d'un entier naturel, sans zéro de tête.
pub open spec fn ecriture_naturel(n: nat) -> Seq<char>
    decreases n,
{
    if n < 10 {
        seq![car_chiffre(n)]
    } else {
        ecriture_naturel(n / 10).push(car_chiffre(n % 10))
    }
}

/// Le texte d'un seul chiffre.
fn texte_chiffre(d: u128) -> (r: &'static str)
    requires
        d < 10,
    ensures
        r@ == seq![car_chiffre(d as nat)],
{
    let t = "0123456789";
    proof {
        reveal_strlit("0123456789");
    }
    t.substring_char(d as usize, (d + 1) as usize)
}

/// Ajoute l'écriture décimale de `n` à la fin de `sortie`.
pub fn ecrire_naturel(n: u128, sortie: &mut String)
    ensures
        final(sortie)@ == old(sortie)@ + ecriture_naturel(n as nat),
    decreases n,
{
    if n >= 10 {
        ecrire_naturel(n / 10, sortie);
    }
    let t = texte_chiffre(n % 10);
    sortie.append(t);
    proof {
        if n >= 10 {
            assert(old(sortie)@ + ecriture_naturel(n as nat) =~= old(sortie)@ + ecriture_naturel(
                (n / 10) as nat,
            ) + t@);
        } else {
            assert(old(sortie)@ + ecriture_naturel(n as nat) =~= old(sortie)@ + t@);
        }
    }
}

/// Écriture décimale d'un entier naturel (`to_string` d'un entier non signé).
pub fn naturel_en_texte(n: u128) -> (r: String)
    ensures
        r@ == ecriture_naturel(n as nat),
{
    let mut r = String::new();
    ecrire_naturel(n, &mut r);
    assert(r@ =~= ecriture_naturel(n as nat));
    r
}

/// Écriture décimale d'un entier signé (`to_string` d'un entier signé).
pub open spec fn ecriture_entier(v: int) -> Seq<char> {
    if v < 0 {
        seq!['-'] + ecriture_naturel((-v) as nat)
    } else {
        ecriture_naturel(v as nat)
    }
}

/// Écriture décimale d'un entier signé.
pub fn entier_en_texte(v: i128) -> (r: String)
    requires
        v > i128::MIN,
    ensures
        r@ == ecriture_entier(v as int),
{
    let mut r = String::new();
    if v < 0 {
        r.append("-");
        proof {
            reveal_strlit("-");
        }
        ecrire_naturel((-v) as u128, &mut r);
    } else {
        ecrire_naturel(v as u128, &mut r);
    }
    r
}

} // verus!
