//! Découpage des listes en pages et boutons de navigation entre les pages.
use vstd::prelude::*;

verus! {

/// Nombre de pages de `par` éléments pour `n` éléments (la dernière peut être
/// incomplète).
pub open spec fn pages_pour(n: int, par: int) -> int {
    (n + par - 1) / par
}

/// Nombre de pages de `par` éléments pour `n` éléments.
pub fn nb_pages(n: usize, par: usize) -> (r: usize)
    requires
        par > 0,
    ensures
        r == pages_pour(n as int, par as int),
{
    let q = n / par;
    let reste = n % par;
    proof {
        assert(n == q * par + reste) by (nonlinear_arith)
            requires
                q == n / par,
                reste == n % par,
                par > 0,
        ;
        assert(reste > 0 ==> q < n) by (nonlinear_arith)
            requires
                n == q * par + reste,
                0 <= reste < par,
                par > 0,
        ;
        assert(pages_pour(n as int, par as int) == q + if reste > 0 { 1int } else { 0int }) by (nonlinear_arith)
            requires
                n == q * par + reste,
                0 <= reste < par,
                par > 0,
        {
            let m = n + par - 1;
            if reste > 0 {
                assert(m == (q + 1) * par + (reste - 1));
                vstd::arithmetic::div_mod::lemma_fundamental_div_mod_converse(m as int, par as int, (q + 1) as int, (reste - 1) as int);
            } else {
                assert(m == q * par + (par - 1));
                vstd::arithmetic::div_mod::lemma_fundamental_div_mod_converse(m as int, par as int, q as int, (par - 1) as int);
            }
        }
    }
    if reste > 0 {
        q + 1
    } else {
        q
    }
}

/// La page affichée : la page demandée si elle existe, sinon la première.
pub open spec fn page_affichee(page: int, n: int, par: int) -> int {
    if page >= pages_pour(n, par) {
        0
    } else {
        page
    }
}

/// Ramène la page demandée à la première si elle n'existe pas.
pub fn page_corrigee(page: usize, n: usize, par: usize) -> (r: usize)
    requires
        par > 0,
    ensures
        r == page_affichee(page as int, n as int, par as int),
{
    if page >= nb_pages(n, par) {
        0
    } else {
        page
    }
}

/// Début d'une page : `page * par`, borné par `n`.
pub open spec fn debut_page(page: int, n: int, par: int) -> int {
    if page * par < n {
        page * par
    } else {
        n
    }
}

/// Fin d'une page : `par` éléments après son début, borné par `n`.
pub open spec fn fin_page(page: int, n: int, par: int) -> int {
    if debut_page(page, n, par) + par < n {
        debut_page(page, n, par) + par
    } else {
        n
    }
}

/// Indices de début et de fin des éléments de la page `page` (ceux que
/// `skip(page * par).take(par)` garde).
pub fn bornes_page(page: usize, n: usize, par: usize) -> (r: (usize, usize))
    requires
        par > 0,
    ensures
        r.0 == debut_page(page as int, n as int, par as int),
        r.1 == fin_page(page as int, n as int, par as int),
{
    let debut = if page > n / par {
        proof {
            assert(page * par >= n) by (nonlinear_arith)
                requires
                    page > n / par,
                    par > 0,
            {
                vstd::arithmetic::div_mod::lemma_fundamental_div_mod(n as int, par as int);
            }
        }
        n
    } else {
        proof {
            assert(page * par <= n) by (nonlinear_arith)
                requires
                    page <= n / par,
                    par > 0,
            {
                vstd::arithmetic::div_mod::lemma_fundamental_div_mod(n as int, par as int);
            }
        }
        page * par
    };
    let fin = if n >= par && debut < n - par {
        debut + par
    } else {
        n
    };
    (debut, fin)
}

/// Page précédente (la première reste la première).
pub fn page_precedente(page: usize) -> (r: usize)
    ensures
        r == if page > 0 {
            page - 1
        } else {
            page as int
        },
{
    if page > 0 {
        page - 1
    } else {
        page
    }
}

/// Page suivante (la dernière reste la dernière).
pub fn page_suivante(page: usize, total_pages: usize) -> (r: usize)
    ensures
        r == if page + 1 < total_pages {
            page + 1
        } else {
            page as int
        },
{
    if total_pages > 0 && page < total_pages - 1 {
        page + 1
    } else {
        page
    }
}

/// Les boutons de toutes les pages.
pub open spec fn toutes_pages(tp: int) -> Seq<Option<usize>> {
    Seq::new(tp as nat, |i: int| Some(i as usize))
}

/// Boutons de la barre de pages générale : aucun s'il n'y a qu'une page ;
/// au-delà de huit pages et après la cinquième, les trois premières, « … »,
/// les pages autour de la page courante (jusqu'à l'avant-dernière exclue) et
/// « … » ; sinon toutes les pages. `None` marque « … ».
pub open spec fn boutons_spec(page: int, tp: int) -> Seq<Option<usize>> {
    if tp <= 1 {
        Seq::empty()
    } else if tp > 8 && page > 4 {
        let haut = if page + 2 < tp - 2 {
            page + 2
        } else {
            tp - 2
        };
        let n = if haut > page - 1 {
            haut - (page - 1)
        } else {
            0
        };
        seq![Some(0usize), Some(1usize), Some(2usize), None] + Seq::new(
            n as nat,
            |i: int| Some((page - 1 + i) as usize),
        ) + seq![None]
    } else {
        toutes_pages(tp)
    }
}

/// Boutons de la barre de pages générale pour `n` éléments par pages de `par`.
pub fn boutons_pagination(page: usize, n: usize, par: usize) -> (r: Vec<Option<usize>>)
    requires
        par > 0,
    ensures
        r@ == boutons_spec(page as int, pages_pour(n as int, par as int)),
{
    let tp = nb_pages(n, par);
    let mut r: Vec<Option<usize>> = Vec::new();
    if tp <= 1 {
        assert(r@ =~= Seq::<Option<usize>>::empty());
        return r;
    }
    if tp > 8 && page > 4 {
        r.push(Some(0));
        r.push(Some(1));
        r.push(Some(2));
        r.push(None);
        let haut = if page < tp - 4 {
            page + 2
        } else {
            tp - 2
        };
        let ghost tete = r@;
        let mut p = page - 1;
        while p < haut
            invariant
                page > 4,
                page - 1 <= p,
                haut >= page - 1 ==> p <= haut,
                haut < page - 1 ==> p == page - 1,
                tete == seq![Some(0usize), Some(1usize), Some(2usize), None::<usize>],
                r@ == tete + Seq::new((p - (page - 1)) as nat, |i: int| Some((page - 1 + i) as usize)),
            decreases haut - p,
        {
            let ghost avant = r@;
            r.push(Some(p));
            assert(r@ =~= tete + Seq::new((p + 1 - (page - 1)) as nat, |i: int| Some((page - 1 + i) as usize)));
            p = p + 1;
        }
        r.push(None);
        proof {
            let hs = if page + 2 < tp - 2 { page + 2 } else { tp - 2 };
            assert(hs == haut);
            let ns = if hs > page - 1 { hs - (page - 1) } else { 0 };
            assert(p - (page - 1) == ns);
            assert(r@ =~= boutons_spec(page as int, tp as int));
        }
        return r;
    }
    let mut p: usize = 0;
    while p < tp
        invariant
            p <= tp,
            r@ == toutes_pages(p as int),
        decreases tp - p,
    {
        r.push(Some(p));
        assert(r@ =~= toutes_pages(p + 1));
        p = p + 1;
    }
    r
}

/// Boutons de la barre de pages des contrats : les huit premières pages au
/// plus, puis « … » et la dernière page s'il y en a plus de huit.
pub open spec fn boutons_liste_spec(tp: int) -> Seq<Option<usize>> {
    if tp > 8 {
        toutes_pages(8) + seq![None, Some((tp - 1) as usize)]
    } else {
        toutes_pages(tp)
    }
}

/// Boutons de la barre de pages des contrats, pour `tp` pages.
pub fn boutons_liste(tp: usize) -> (r: Vec<Option<usize>>)
    ensures
        r@ == boutons_liste_spec(tp as int),
{
    let m = if tp < 8 {
        tp
    } else {
        8
    };
    let mut r: Vec<Option<usize>> = Vec::new();
    let mut p: usize = 0;
    while p < m
        invariant
            p <= m,
            m <= 8,
            r@ == toutes_pages(p as int),
        decreases m - p,
    {
        r.push(Some(p));
        assert(r@ =~= toutes_pages(p + 1));
        p = p + 1;
    }
    if tp > 8 {
        r.push(None);
        r.push(Some(tp - 1));
    }
    assert(r@ =~= boutons_liste_spec(tp as int));
    r
}

} // verus!
