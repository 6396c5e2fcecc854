//! Règles de l'agence qui valent d'une opération à l'autre.
use vstd::prelude::*;
use crate::date::{date_analysee, date_saisie, format_iso, annee_mois};
use crate::modeles::{Contrat, chevauche_spec, statut_annule};
use crate::agence::{App, max_id_contrats, disponible};
use crate::formulaire::{erreur_enregistrement, contrats_apres_enregistrement, voiture_choisie,
    contrat_exclu};

verus! {

/// Deux contrats occupent la même période : aucun n'est annulé, leurs dates
/// ISO se lisent et les périodes se recouvrent.
pub open spec fn se_chevauchent(c1: Contrat, c2: Contrat) -> bool {
    c2.statut@ != statut_annule() && match (
        date_analysee(c2.date_debut@, format_iso()),
        date_analysee(c2.date_fin@, format_iso()),
    ) {
        (Some(a), Some(b)) => chevauche_spec(c1, a, b),
        _ => false,
    }
}

/// Aucune voiture du parc (identifiant non nul) n'est louée deux fois sur
/// des périodes qui se recouvrent.
pub open spec fn sans_double_reservation(s: Seq<Contrat>) -> bool {
    forall|i: int, j: int|
        0 <= i < s.len() && 0 <= j < s.len() && i != j && s[i].voiture_id == s[j].voiture_id
            && s[i].voiture_id != 0 ==> !se_chevauchent(#[trigger] s[i], #[trigger] s[j])
}

/// Les identifiants des contrats sont deux à deux distincts.
pub open spec fn ids_uniques(s: Seq<Contrat>) -> bool {
    forall|i: int, j: int| 0 <= i < s.len() && 0 <= j < s.len() && i != j ==> #[trigger] s[i].id != #[trigger] s[j].id
}

/// Le chevauchement est symétrique.
pub proof fn loi_chevauchement_symetrique(c1: Contrat, c2: Contrat)
    ensures
        se_chevauchent(c1, c2) == se_chevauchent(c2, c1),
{
}

/// Le plus grand identifiant majore tous les identifiants.
pub proof fn lemme_max_id(s: Seq<Contrat>)
    ensures
        forall|k: int| 0 <= k < s.len() ==> (#[trigger] s[k]).id <= max_id_contrats(s),
    decreases s.len(),
{
    if s.len() > 0 {
        lemme_max_id(s.drop_last());
        assert forall|k: int| 0 <= k < s.len() implies (#[trigger] s[k]).id <= max_id_contrats(s) by {
            if k < s.len() - 1 {
                assert(s[k] == s.drop_last()[k]);
            }
        }
    }
}

/// Enregistrer un contrat garde des identifiants distincts : le nouveau
/// contrat prend le plus grand identifiant plus un, un contrat modifié garde
/// le sien.
pub proof fn loi_enregistrement_ids_uniques(avant: App, apres: Seq<Contrat>, t: int)
    requires
        ids_uniques(avant.contrats@),
        erreur_enregistrement(avant, t) is None,
        contrats_apres_enregistrement(avant, apres, t),
        avant.formulaire.en_edition matches Some(e) ==> e < avant.contrats@.len(),
    ensures
        ids_uniques(apres),
{
    let cs = avant.contrats@;
    lemme_max_id(cs);
    assert forall|i: int, j: int| 0 <= i < apres.len() && 0 <= j < apres.len() && i != j implies #[trigger] apres[i].id != #[trigger] apres[j].id by {
        match avant.formulaire.en_edition {
            Some(e) => {
                if i != e && j != e {
                    assert(apres[i] == cs[i] && apres[j] == cs[j]);
                } else if i == e {
                    assert(apres[j] == cs[j]);
                } else {
                    assert(apres[i] == cs[i]);
                }
            },
            None => {
                if i < cs.len() && j < cs.len() {
                    assert(apres[i] == cs[i] && apres[j] == cs[j]);
                } else if i < cs.len() {
                    assert(apres[i] == cs[i]);
                    assert(cs[i].id <= max_id_contrats(cs));
                } else {
                    assert(apres[j] == cs[j]);
                    assert(cs[j].id <= max_id_contrats(cs));
                }
            },
        }
    }
}

/// Le contrat saisi n'en chevauche aucun autre de la même voiture.
proof fn lemme_nouveau_sans_chevauchement(avant: App, n: Contrat, c: Contrat, t: int)
    requires
        erreur_enregistrement(avant, t) is None,
        voiture_choisie(avant.formulaire, avant.voitures@),
        n.voiture_id == avant.voitures@[avant.formulaire.voiture - 1].id,
        date_analysee(n.date_debut@, format_iso()) == date_saisie(avant.formulaire.debut@),
        date_analysee(n.date_fin@, format_iso()) == date_saisie(avant.formulaire.fin@),
        exists|k: int|
            0 <= k < avant.contrats@.len() && avant.contrats@[k] == c && !(contrat_exclu(
                avant.formulaire,
                avant.contrats@,
            ) == Some(avant.contrats@[k].id)),
        c.voiture_id == n.voiture_id,
    ensures
        !se_chevauchent(n, c),
        !se_chevauchent(c, n),
{
    let f = avant.formulaire;
    let k = choose|k: int|
        0 <= k < avant.contrats@.len() && avant.contrats@[k] == c && !(contrat_exclu(
            f,
            avant.contrats@,
        ) == Some(avant.contrats@[k].id));
    let d = date_saisie(f.debut@)->0;
    let e = date_saisie(f.fin@)->0;
    assert(disponible(avant.contrats@, n.voiture_id, d, e, contrat_exclu(f, avant.contrats@)));
    assert(!(!(contrat_exclu(f, avant.contrats@) == Some(avant.contrats@[k].id))
        && avant.contrats@[k].voiture_id == n.voiture_id && chevauche_spec(avant.contrats@[k], d, e)));
}

/// Enregistrer un contrat n'introduit pas de double réservation : la voiture
/// choisie est libre sur la période (le contrat modifié mis à part), et une
/// voiture « à spécifier » ne porte pas d'identifiant.
pub proof fn loi_enregistrement_sans_double_reservation(avant: App, apres: Seq<Contrat>, t: int)
    requires
        sans_double_reservation(avant.contrats@),
        ids_uniques(avant.contrats@),
        erreur_enregistrement(avant, t) is None,
        contrats_apres_enregistrement(avant, apres, t),
        avant.formulaire.en_edition matches Some(e) ==> e < avant.contrats@.len(),
    ensures
        sans_double_reservation(apres),
{
    let cs = avant.contrats@;
    let f = avant.formulaire;
    let vs = avant.voitures@;
    let pos: int = match f.en_edition {
        Some(e) => e as int,
        None => cs.len() as int,
    };
    let n = apres[pos];
    assert(n.voiture_id == (if voiture_choisie(f, vs) {
        vs[f.voiture - 1].id
    } else {
        0
    }));
    assert forall|i: int, j: int|
        0 <= i < apres.len() && 0 <= j < apres.len() && i != j && apres[i].voiture_id
            == apres[j].voiture_id && apres[i].voiture_id != 0 implies !se_chevauchent(
        #[trigger] apres[i],
        #[trigger] apres[j],
    ) by {
        if i != pos && j != pos {
            assert(apres[i] == cs[i] && apres[j] == cs[j]);
        } else {
            let autre = if i == pos {
                j
            } else {
                i
            };
            assert(apres[autre] == cs[autre]);
            assert(voiture_choisie(f, vs));
            match f.en_edition {
                Some(e) => {
                    assert(cs[autre].id != cs[e as int].id);
                },
                None => {},
            }
            lemme_nouveau_sans_chevauchement(avant, n, cs[autre], t);
        }
    }
}

} // verus!
