//! Relecture de ce que la bibliothèque écrit : un entier ou un montant écrit
//! puis relu redonne la même valeur, et un contrat repris dans le formulaire
//! garde ses montants.
use vstd::prelude::*;
use crate::nombre::{est_chiffre, valeur_chiffre, que_des_chiffres, valeur_decimale, lecture_naturel,
    car_chiffre, ecriture_naturel};
use crate::montant::{premier_point, sans_signe, centiemes, lecture_montant, montant_lu,
    ecriture_decimale};
use crate::texte::{rogne, est_espace_spec, lemme_rogne_sans_espace};
use crate::modeles::{Contrat, Voiture};
use crate::agence::FormulaireContrat;
use crate::formulaire::montant_ou_zero;
use crate::liste::reprise;

verus! {

/// Un chiffre écrit est un chiffre, de la valeur écrite.
proof fn lemme_chiffre(d: nat)
    requires
        d < 10,
    ensures
        est_chiffre(car_chiffre(d)),
        valeur_chiffre(car_chiffre(d)) == d,
        car_chiffre(d) != '.' && car_chiffre(d) != '+' && car_chiffre(d) != '-',
        !est_espace_spec(car_chiffre(d)),
{
    assert(('0' as int) == 48);
    assert(((48 + d) as char) as int == 48 + d);
}

/// L'écriture d'un entier naturel n'a que des chiffres, au moins un, et se
/// relit en cet entier.
proof fn lemme_ecriture(n: nat)
    ensures
        ecriture_naturel(n).len() >= 1,
        que_des_chiffres(ecriture_naturel(n)),
        valeur_decimale(ecriture_naturel(n)) == n,
    decreases n,
{
    if n < 10 {
        lemme_chiffre(n);
        let e = ecriture_naturel(n);
        assert(e == seq![car_chiffre(n)]);
        assert(e.drop_last() =~= Seq::<char>::empty());
        assert(valeur_decimale(e.drop_last()) == 0);
        assert(valeur_decimale(e) == valeur_decimale(e.drop_last()) * 10 + valeur_chiffre(e.last()));
    } else {
        lemme_ecriture(n / 10);
        lemme_chiffre(n % 10);
        let e = ecriture_naturel(n);
        let t = ecriture_naturel(n / 10);
        assert(e == t.push(car_chiffre(n % 10)));
        assert(e.drop_last() =~= t);
        assert(e.last() == car_chiffre(n % 10));
        assert(valeur_decimale(e) == valeur_decimale(t) * 10 + valeur_chiffre(e.last()));
        assert((n / 10) * 10 + n % 10 == n);
        assert forall|i: int| 0 <= i < e.len() implies est_chiffre(#[trigger] e[i]) by {
            if i < t.len() {
                assert(e[i] == t[i]);
            }
        }
    }
}

/// Le premier caractère d'une écriture d'entier est un chiffre.
proof fn lemme_premier_chiffre(n: nat)
    ensures
        est_chiffre(ecriture_naturel(n)[0]),
        ecriture_naturel(n)[0] != '+' && ecriture_naturel(n)[0] != '-' && ecriture_naturel(n)[0] != '.',
        !est_espace_spec(ecriture_naturel(n)[0]),
        !est_espace_spec(ecriture_naturel(n).last()),
{
    lemme_ecriture(n);
    let e = ecriture_naturel(n);
    assert(est_chiffre(e[0]));
    assert(est_chiffre(e[e.len() - 1]));
}

/// Un entier naturel écrit puis relu (comme par `u32::from_str`) redonne
/// cet entier.
pub proof fn loi_relecture_naturel(n: nat)
    ensures
        lecture_naturel(ecriture_naturel(n)) == Some(n),
{
    lemme_ecriture(n);
    lemme_premier_chiffre(n);
}

/// Sans point dans `s` entre `i` et `k`, le premier point cherché depuis `i`
/// est celui cherché depuis `k`.
proof fn lemme_sans_point(s: Seq<char>, i: int, k: int)
    requires
        0 <= i <= k <= s.len(),
        forall|m: int| i <= m < k ==> s[m] != '.',
    ensures
        premier_point(s, i) == premier_point(s, k),
    decreases k - i,
{
    if i < k {
        lemme_sans_point(s, i + 1, k);
    }
}

/// Un montant en centièmes écrit en décimal (comme le `to_string` d'un nombre
/// à virgule) puis relu redonne le même montant, y compris après `rogne` ; il
/// suffit qu'il tienne dans l'intervalle des montants.
pub proof fn loi_relecture_montant(v: int)
    requires
        -(i64::MAX as int) <= v <= i64::MAX,
    ensures
        montant_lu(ecriture_decimale(v)) == Some(v as i64),
        rogne(ecriture_decimale(v)) == ecriture_decimale(v),
        montant_ou_zero(ecriture_decimale(v)) == v,
{
    let a = if v < 0 {
        -v
    } else {
        v
    };
    let q = (a / 100) as nat;
    let r = (a % 100) as nat;
    let eq = ecriture_naturel(q);
    lemme_ecriture(q);
    lemme_premier_chiffre(q);
    let corps = if r == 0 {
        eq
    } else if r % 10 == 0 {
        eq + seq!['.'] + ecriture_naturel(r / 10)
    } else {
        eq + seq!['.'] + ecriture_naturel(r / 10) + ecriture_naturel(r % 10)
    };
    let s = ecriture_decimale(v);
    assert(s == if v < 0 {
        seq!['-'] + corps
    } else {
        corps
    });
    assert(corps.len() >= 1 && corps[0] == eq[0]);
    assert(sans_signe(s) =~= corps);
    assert forall|m: int| 0 <= m < eq.len() implies corps[m] != '.' by {
        assert(corps[m] == eq[m]);
        assert(est_chiffre(eq[m]));
    }
    lemme_sans_point(corps, 0, eq.len() as int);
    let d1 = r / 10;
    let d2 = r % 10;
    if r == 0 {
        assert(premier_point(corps, eq.len() as int) == corps.len());
        assert(corps.take(corps.len() as int) =~= eq);
        assert(lecture_montant(s) == Some(v));
        assert(corps.last() == eq.last());
    } else {
        lemme_chiffre(d1);
        lemme_chiffre(d2);
        assert(ecriture_naturel(d1) == seq![car_chiffre(d1)]);
        assert(ecriture_naturel(d2) == seq![car_chiffre(d2)]);
        assert(corps[eq.len() as int] == '.');
        assert(premier_point(corps, eq.len() as int) == eq.len());
        assert(corps.take(eq.len() as int) =~= eq);
        let frac = corps.skip(eq.len() as int + 1);
        if d2 == 0 {
            assert(frac =~= seq![car_chiffre(d1)]);
            assert(centiemes(frac) == d1 * 10);
        } else {
            assert(frac =~= seq![car_chiffre(d1), car_chiffre(d2)]);
            assert(centiemes(frac) == d1 * 10 + d2);
        }
        assert(que_des_chiffres(frac));
        assert(lecture_montant(s) == Some(v));
        assert(!est_espace_spec(corps.last()));
    }
    assert(!est_espace_spec(s[0]));
    assert(s.last() == corps.last());
    lemme_rogne_sans_espace(s);
}

/// Un contrat repris dans le formulaire pour être modifié garde ses
/// kilométrages, son tarif et son paiement à la relecture du formulaire
/// (montants distincts de la plus petite valeur sur 64 bits).
pub proof fn loi_reprise_montants(f: FormulaireContrat, avant: FormulaireContrat, c: Contrat, i: usize, vs: Seq<Voiture>)
    requires
        reprise(f, avant, c, i, vs),
        c.km_depart > i64::MIN,
        c.km_retour > i64::MIN,
        c.tarif_jour > i64::MIN,
        c.montant_paye > i64::MIN,
    ensures
        montant_ou_zero(f.km_dep@) == c.km_depart,
        montant_ou_zero(f.km_ret@) == c.km_retour,
        montant_ou_zero(f.tarif@) == c.tarif_jour,
        montant_ou_zero(f.montant_paye@) == c.montant_paye,
{
    loi_relecture_montant(c.km_depart as int);
    loi_relecture_montant(c.km_retour as int);
    loi_relecture_montant(c.tarif_jour as int);
    loi_relecture_montant(c.montant_paye as int);
}

} // verus!
