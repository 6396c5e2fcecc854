//! Outils de preuve sur les suites et sommes bornées.
use vstd::prelude::*;

verus! {

/// Un pas de filtrage : garder ou non l'élément d'indice `i`.
pub proof fn lemme_filtre_pas<A>(s: Seq<A>, p: spec_fn(A) -> bool, i: int)
    requires
        0 <= i < s.len(),
    ensures
        s.take(i + 1).filter(p) == (if p(s[i]) {
            s.take(i).filter(p).push(s[i])
        } else {
            s.take(i).filter(p)
        }),
{
    reveal(Seq::filter);
    assert(s.take(i + 1).drop_last() =~= s.take(i));
}

/// Le filtrage d'une suite vide est vide.
pub proof fn lemme_filtre_vide<A>(s: Seq<A>, p: spec_fn(A) -> bool)
    ensures
        s.take(0).filter(p) == Seq::<A>::empty(),
{
    reveal(Seq::filter);
    assert(s.take(0) =~= Seq::<A>::empty());
}

/// Un élément est dans la suite filtrée si et seulement s'il est dans la
/// suite et satisfait le filtre.
pub proof fn lemme_filtre_appartient<A>(s: Seq<A>, p: spec_fn(A) -> bool, x: A)
    ensures
        s.filter(p).contains(x) <==> s.contains(x) && p(x),
{
    if s.filter(p).contains(x) {
        let i = choose|i: int| 0 <= i < s.filter(p).len() && s.filter(p)[i] == x;
        s.lemma_filter_pred(p, i);
        s.lemma_filter_contains_rev(p, x);
    }
    if s.contains(x) && p(x) {
        let k = choose|k: int| 0 <= k < s.len() && s[k] == x;
        s.lemma_filter_contains(p, k);
    }
}

/// Somme d'une suite d'entiers.
pub open spec fn somme(s: Seq<int>) -> int
    decreases s.len(),
{
    if s.len() == 0 {
        0
    } else {
        somme(s.drop_last()) + s.last()
    }
}

/// Valeur représentable (et opposable) sur 128 bits.
pub open spec fn dans_i128(v: int) -> bool {
    i128::MIN < v <= i128::MAX
}

/// Toutes les sommes partielles, prises dans l'ordre, restent sur 128 bits.
pub open spec fn sommes_bornees(s: Seq<int>) -> bool {
    forall|k: int| 0 <= k <= s.len() ==> dans_i128(#[trigger] somme(s.take(k)))
}

/// Somme calculée sur 128 bits : `None` si une somme partielle en sort.
pub open spec fn somme_bornee(s: Seq<int>) -> Option<int> {
    if sommes_bornees(s) {
        Some(somme(s))
    } else {
        None
    }
}

/// Valeurs d'un vecteur d'entiers sur 128 bits.
pub open spec fn valeurs(v: Seq<i128>) -> Seq<int> {
    v.map_values(|x: i128| x as int)
}

/// Additionne les valeurs dans l'ordre ; `None` si une somme partielle sort
/// des entiers sur 128 bits.
pub fn additionner(v: &Vec<i128>) -> (r: Option<i128>)
    ensures
        match r {
            Some(x) => somme_bornee(valeurs(v@)) == Some(x as int),
            None => somme_bornee(valeurs(v@)) is None,
        },
{
    let ghost s = valeurs(v@);
    let mut acc: i128 = 0;
    let mut i: usize = 0;
    assert(s.take(0) =~= Seq::<int>::empty());
    while i < v.len()
        invariant
            s == valeurs(v@),
            0 <= i <= v.len(),
            acc == somme(s.take(i as int)),
            forall|k: int| 0 <= k <= i ==> dans_i128(#[trigger] somme(s.take(k))),
        decreases v.len() - i,
    {
        proof {
            assert(s.take(i + 1).drop_last() =~= s.take(i as int));
        }
        let x = v[i];
        if (x > 0 && acc > i128::MAX - x) || (x < 0 && acc <= i128::MIN - x) {
            proof {
                assert(!dans_i128(somme(s.take(i + 1))));
            }
            return None;
        }
        acc = acc + x;
        i = i + 1;
    }
    assert(s.take(v.len() as int) =~= s);
    Some(acc)
}

} // verus!
