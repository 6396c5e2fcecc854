//! Propriétés des recherches et des filtres : ce qu'une recherche retient,
//! ce qu'un filtre de statut laisse passer, ce qui compte dans le chiffre
//! d'affaires du mois.
use vstd::prelude::*;
use crate::texte::{apparait_en, contient_spec, minuscules, cle_texte};
use crate::date::{date_analysee, format_iso, annee_mois};
use crate::modeles::{Contrat, Voiture, reste_contrat, statut_annule};
use crate::agence::{App, du_mois, totaux};
use crate::dispo::{recherche_modele_faite, decrite_par, ligne_modele, vue_ligne};
use crate::impayes::{impayes_affiches, impaye_le, repond_impaye};
use crate::liste::garde_liste;
use crate::parc::repond_parc;
use crate::tableau::{rangs_desc, rangs_croissants};
use crate::outils::{lemme_filtre_appartient, lemme_filtre_pas, somme_bornee};

verus! {

/// Un motif présent dans `a` l'est dans `a + b`.
pub proof fn lemme_contient_gauche(a: Seq<char>, b: Seq<char>, q: Seq<char>)
    requires
        contient_spec(a, q),
    ensures
        contient_spec(a + b, q),
{
    let i = choose|i: int| apparait_en(a, q, i);
    assert((a + b).subrange(i, i + q.len()) =~= a.subrange(i, i + q.len()));
    assert(apparait_en(a + b, q, i));
}

/// Un motif présent dans `b` l'est dans `a + b`.
pub proof fn lemme_contient_droite(a: Seq<char>, b: Seq<char>, q: Seq<char>)
    requires
        contient_spec(b, q),
    ensures
        contient_spec(a + b, q),
{
    let i = choose|i: int| apparait_en(b, q, i);
    assert((a + b).subrange(a.len() + i, a.len() + i + q.len()) =~= b.subrange(i, i + q.len()));
    assert(apparait_en(a + b, q, a.len() + i));
}

/// Chaque rang listé par `rangs_desc` à partir de `j` désigne un élément, de
/// rang au moins `j`, qui satisfait le filtre.
pub proof fn lemme_rangs_desc<A>(s: Seq<A>, p: spec_fn(A) -> bool, j: int)
    requires
        0 <= j,
        s.len() <= usize::MAX,
    ensures
        forall|i: int|
            0 <= i < rangs_desc(s, p, j).len() ==> j <= #[trigger] rangs_desc(s, p, j)[i] < s.len()
                && p(s[rangs_desc(s, p, j)[i] as int]),
    decreases s.len() - j,
{
    if j < s.len() {
        lemme_rangs_desc(s, p, j + 1);
        let r = rangs_desc(s, p, j);
        let r1 = rangs_desc(s, p, j + 1);
        if p(s[j]) {
            assert(r == r1.push(j as usize));
        } else {
            assert(r == r1);
        }
        assert forall|i: int| 0 <= i < r.len() implies j <= #[trigger] r[i] < s.len() && p(
            s[r[i] as int],
        ) by {
            if i < r1.len() {
                assert(r[i] == r1[i]);
                assert(j + 1 <= r1[i] < s.len() && p(s[r1[i] as int]));
            } else {
                assert(r[i] == j as usize);
            }
        }
    }
}

/// Tout rang dont l'élément satisfait le filtre figure dans `rangs_croissants`.
pub proof fn lemme_rangs_croissants<A>(s: Seq<A>, p: spec_fn(A) -> bool, k: int)
    requires
        0 <= k < s.len(),
        s.len() <= usize::MAX,
        p(s[k]),
    ensures
        rangs_croissants(s, p).contains(k as usize),
    decreases s.len(),
{
    let r = rangs_croissants(s, p);
    if k == s.len() - 1 {
        assert(r[r.len() - 1] == k as usize);
    } else {
        let d = s.drop_last();
        assert(d[k] == s[k]);
        lemme_rangs_croissants(d, p, k);
        let r1 = rangs_croissants(d, p);
        let i = choose|i: int| 0 <= i < r1.len() && r1[i] == k as usize;
        assert(r[i] == k as usize);
    }
}

/// La recherche par modèle retient toute voiture dont le modèle, la catégorie
/// ou la couleur, en minuscules, contient le texte cherché (la saisie rognée,
/// en minuscules) : la voiture figure parmi les résultats, avec son modèle, et
/// aucun message d'erreur n'est affiché.
pub proof fn loi_recherche_par_modele(avant: App, apres: App, t: int, k: int)
    requires
        recherche_modele_faite(avant, apres, t),
        0 <= k < avant.voitures@.len(),
        cle_texte(avant.dispo.recherche_modele@).len() > 0,
        contient_spec(minuscules(avant.voitures@[k].modele@), cle_texte(avant.dispo.recherche_modele@))
            || contient_spec(
            minuscules(avant.voitures@[k].categorie@),
            cle_texte(avant.dispo.recherche_modele@),
        ) || contient_spec(
            minuscules(avant.voitures@[k].couleur@),
            cle_texte(avant.dispo.recherche_modele@),
        ),
    ensures
        exists|i: int|
            0 <= i < apres.dispo.modele_periode@.len() && (#[trigger] apres.dispo.modele_periode@[i]).0
                == avant.voitures@[k].id && apres.dispo.modele_periode@[i].1@
                == avant.voitures@[k].modele@,
        apres.dispo.erreur@.len() == 0,
{
    let q = cle_texte(avant.dispo.recherche_modele@);
    let vs = avant.voitures@;
    let v = vs[k];
    let m = minuscules(v.modele@);
    let c = minuscules(v.categorie@);
    let co = minuscules(v.couleur@);
    if contient_spec(m, q) {
        lemme_contient_gauche(m, " "@, q);
        lemme_contient_gauche(m + " "@, c, q);
        lemme_contient_gauche(m + " "@ + c, " "@, q);
        lemme_contient_gauche(m + " "@ + c + " "@, co, q);
    } else if contient_spec(c, q) {
        lemme_contient_droite(m + " "@, c, q);
        lemme_contient_gauche(m + " "@ + c, " "@, q);
        lemme_contient_gauche(m + " "@ + c + " "@, co, q);
    } else {
        lemme_contient_droite(m + " "@ + c + " "@, co, q);
    }
    let p = decrite_par(q);
    assert(p(v));
    assert(vs.contains(v)) by {
        assert(vs[k] == v);
    }
    lemme_filtre_appartient(vs, p, v);
    let f = vs.filter(p);
    let j = choose|j: int| 0 <= j < f.len() && f[j] == v;
    let g = ligne_modele(avant, t);
    let res = f.map_values(g);
    assert(res[j] == g(v));
    let d = apres.dispo.modele_periode@;
    assert(d.map_values(|x: (u64, String, String, String)| vue_ligne(x)) == res);
    assert(d.map_values(|x: (u64, String, String, String)| vue_ligne(x))[j] == vue_ligne(d[j]));
    assert(d[j].0 == v.id && d[j].1@ == v.modele@);
}

/// Un contrat impayé le jour `t` (actif ou terminé, avec un reste à payer,
/// commencé au plus tard ce jour) dont le client, le téléphone, le numéro ou
/// le modèle du véhicule, en minuscules, contient la recherche (rognée, en
/// minuscules) figure parmi les impayés affichés.
pub proof fn loi_impaye_retrouve(app: App, t: int, k: int)
    requires
        0 <= k < app.contrats@.len(),
        app.contrats@[k].statut@ == "Actif"@ || app.contrats@[k].statut@ == "Terminé"@,
        reste_contrat(app.contrats@[k]) > 0,
        date_analysee(app.contrats@[k].date_debut@, format_iso()) matches Some(d) && d <= t,
        contient_spec(minuscules(app.contrats@[k].voiture_modele@), cle_texte(app.impaye_recherche@))
            || contient_spec(
            minuscules(app.contrats@[k].client_nom@),
            cle_texte(app.impaye_recherche@),
        ) || contient_spec(
            minuscules(app.contrats@[k].client_tel@),
            cle_texte(app.impaye_recherche@),
        ) || contient_spec(minuscules(app.contrats@[k].numero@), cle_texte(app.impaye_recherche@)),
    ensures
        impayes_affiches(app, t).contains(app.contrats@[k]),
{
    let cs = app.contrats@;
    let c = cs[k];
    let p = impaye_le(t);
    let pq = repond_impaye(cle_texte(app.impaye_recherche@));
    assert(cs.contains(c)) by {
        assert(cs[k] == c);
    }
    assert(p(c));
    lemme_filtre_appartient(cs, p, c);
    assert(pq(c));
    lemme_filtre_appartient(cs.filter(p), pq, c);
}

/// Un contrat commencé une autre année que le jour `t` n'ajoute rien au
/// chiffre d'affaires du mois de `t`, même s'il a commencé le même mois : les
/// contrats comptés et leur somme sont les mêmes avec ou sans lui.
pub proof fn loi_ca_mois_autre_annee(cs: Seq<Contrat>, c: Contrat, t: int)
    requires
        date_analysee(c.date_debut@, format_iso()) matches Some(d) && annee_mois(d).0 != annee_mois(
            t,
        ).0,
    ensures
        du_mois(cs.push(c), annee_mois(t).0, annee_mois(t).1) == du_mois(
            cs,
            annee_mois(t).0,
            annee_mois(t).1,
        ),
        somme_bornee(totaux(du_mois(cs.push(c), annee_mois(t).0, annee_mois(t).1)))
            == somme_bornee(totaux(du_mois(cs, annee_mois(t).0, annee_mois(t).1))),
{
    let a = annee_mois(t).0;
    let m = annee_mois(t).1;
    let p = |x: Contrat|
        x.statut@ != statut_annule() && match date_analysee(x.date_debut@, format_iso()) {
            Some(d) => annee_mois(d) == (a, m),
            None => false,
        };
    let s = cs.push(c);
    lemme_filtre_pas(s, p, cs.len() as int);
    assert(s.take(cs.len() as int + 1) =~= s);
    assert(s.take(cs.len() as int) =~= cs);
    assert(!p(c));
    assert(du_mois(s, a, m) == s.filter(p));
    assert(du_mois(cs, a, m) == cs.filter(p));
}

/// Le filtre de statut de la liste des contrats ne laisse passer que le
/// statut choisi : « Actif » pour les filtres 1 (en cours) et 4 (réservés),
/// « Terminé » pour le filtre 2, « Annulé » pour le filtre 3. Chaque rang
/// listé désigne un contrat de la liste.
pub proof fn loi_liste_par_statut(app: App, t: int, i: int)
    requires
        0 <= i < rangs_desc(app.contrats@, garde_liste(app.liste, t), 0).len(),
    ensures
        rangs_desc(app.contrats@, garde_liste(app.liste, t), 0)[i] < app.contrats@.len(),
        ({
            let c = app.contrats@[rangs_desc(app.contrats@, garde_liste(app.liste, t), 0)[i] as int];
            &&& app.liste.statut == 1 ==> c.statut@ == "Actif"@
            &&& app.liste.statut == 2 ==> c.statut@ == "Terminé"@
            &&& app.liste.statut == 3 ==> c.statut@ == "Annulé"@
            &&& app.liste.statut == 4 ==> c.statut@ == "Actif"@
        }),
{
    assert(app.contrats@.len() == app.contrats.len());
    lemme_rangs_desc(app.contrats@, garde_liste(app.liste, t), 0);
}

/// La recherche du parc retient toute voiture dont le modèle, la plaque ou la
/// catégorie, en minuscules, contient la recherche (en minuscules) : son rang
/// figure parmi les voitures filtrées.
pub proof fn loi_parc_retrouve(app: App, k: int)
    requires
        0 <= k < app.voitures@.len(),
        contient_spec(minuscules(app.voitures@[k].modele@), minuscules(app.form_voiture.recherche@))
            || contient_spec(
            minuscules(app.voitures@[k].plaque@),
            minuscules(app.form_voiture.recherche@),
        ) || contient_spec(
            minuscules(app.voitures@[k].categorie@),
            minuscules(app.form_voiture.recherche@),
        ),
    ensures
        rangs_croissants(app.voitures@, repond_parc(minuscules(app.form_voiture.recherche@))).contains(
            k as usize,
        ),
{
    assert(app.voitures@.len() == app.voitures.len());
    lemme_rangs_croissants(
        app.voitures@,
        repond_parc(minuscules(app.form_voiture.recherche@)),
        k,
    );
}

} // verus!
