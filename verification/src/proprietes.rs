//! Propriétés qui relient les opérations entre elles : identifiants distincts
//! après ajout ou retrait, navigation et retour, thème, retours traités,
//! pages d'une liste, disponibilité et montants d'un contrat.
use vstd::prelude::*;
use crate::theme::{Theme, Rgb, melange};
use crate::date::date_saisie;
use crate::modeles::{Identifie, Contrat, Voiture, Encaissement, Decaissement, max_ident, sans_ident,
    autre_ident, total_contrat, reste_contrat, statut_termine};
use crate::agence::{App, Onglet, navigation};
use crate::fenetres::{retour, bascule};
use crate::parc::voiture_ajoutee;
use crate::ventes::vente_ajoutee;
use crate::caisse::{periode_creee, encaissement_ajoute, decaissement_ajoute, hors_periode_enc,
    hors_periode_dec};
use crate::tableau::{a_traiter, statut_change};
use crate::pagination::{pages_pour, debut_page, fin_page};
use crate::dispo::{ids_libres, location_preparee};
use crate::modeles::rang_ident;
use crate::formulaire::{erreur_enregistrement, voiture_choisie, contrat_enregistre};
use crate::modeles::VoitureVente;
use crate::outils::lemme_filtre_appartient;
use crate::saisie::{cle_modele, place_modele, tri_modele};
use crate::texte::{lex_inf, lex_inf_depuis, cle_texte, lemme_rogne_rogne};
use crate::modeles::Reparation;
use crate::reparations::{rang_par_date, tri_par_date, reparation_ajoutee, reparation_saisie};
use crate::statut::{cle_debut, rang_insertion, tri_par_debut, historique, contrats_de_voiture};

verus! {

/// Les identifiants d'une suite sont deux à deux distincts.
pub open spec fn idents_distincts<T: Identifie>(s: Seq<T>) -> bool {
    forall|i: int, j: int|
        0 <= i < s.len() && 0 <= j < s.len() && i != j ==> (#[trigger] s[i]).ident() != (
        #[trigger] s[j]).ident()
}

/// Le plus grand identifiant majore tous les identifiants d'une suite.
pub proof fn lemme_max_ident<T: Identifie>(s: Seq<T>)
    ensures
        forall|k: int| 0 <= k < s.len() ==> (#[trigger] s[k]).ident() <= max_ident(s),
    decreases s.len(),
{
    if s.len() > 0 {
        lemme_max_ident(s.drop_last());
        assert forall|k: int| 0 <= k < s.len() implies (#[trigger] s[k]).ident() <= max_ident(s) by {
            if k < s.len() - 1 {
                assert(s[k] == s.drop_last()[k]);
            }
        }
    }
}

/// Ajouter en fin de suite un élément d'identifiant « plus grand plus un »
/// garde des identifiants distincts.
pub proof fn loi_ajout_idents<T: Identifie>(avant: Seq<T>, apres: Seq<T>)
    requires
        idents_distincts(avant),
        apres.len() == avant.len() + 1,
        apres.take(avant.len() as int) == avant,
        apres[avant.len() as int].ident() == max_ident(avant) + 1,
    ensures
        idents_distincts(apres),
{
    lemme_max_ident(avant);
    let n = avant.len() as int;
    assert forall|i: int, j: int|
        0 <= i < apres.len() && 0 <= j < apres.len() && i != j implies (#[trigger] apres[i]).ident()
        != (#[trigger] apres[j]).ident() by {
        if i < n {
            assert(apres[i] == apres.take(n)[i]);
        }
        if j < n {
            assert(apres[j] == apres.take(n)[j]);
        }
    }
}

/// Retirer les éléments d'un identifiant : aucun ne le porte plus, tous les
/// autres restent, et les identifiants restent distincts.
pub proof fn loi_retrait_idents<T: Identifie>(s: Seq<T>, id: u64)
    ensures
        forall|x: T| sans_ident(s, id).contains(x) <==> s.contains(x) && x.ident() != id,
        idents_distincts(s) ==> idents_distincts(sans_ident(s, id)),
{
    let r = sans_ident(s, id);
    let p = autre_ident::<T>(id);
    assert forall|x: T| r.contains(x) <==> s.contains(x) && x.ident() != id by {
        lemme_filtre_appartient(s, p, x);
    }
    if idents_distincts(s) {
        assert forall|i: int, j: int|
            0 <= i < r.len() && 0 <= j < r.len() && i != j implies (#[trigger] r[i]).ident() != (
            #[trigger] r[j]).ident() by {
            lemme_filtre_injectif(s, p, i, j);
        }
    }
}

/// Deux rangs distincts d'une suite filtrée viennent de rangs distincts de
/// la suite d'origine.
proof fn lemme_filtre_injectif<T>(s: Seq<T>, p: spec_fn(T) -> bool, i: int, j: int)
    requires
        0 <= i < s.filter(p).len(),
        0 <= j < s.filter(p).len(),
        i != j,
    ensures
        exists|a: int, b: int|
            0 <= a < s.len() && 0 <= b < s.len() && a != b && s[a] == s.filter(p)[i] && s[b]
                == s.filter(p)[j],
    decreases s.len(),
{
    reveal(Seq::filter);
    let f = s.filter(p);
    let g = s.drop_last().filter(p);
    if p(s.last()) {
        assert(f == g.push(s.last()));
        let n = g.len() as int;
        if i < n && j < n {
            lemme_filtre_injectif(s.drop_last(), p, i, j);
            let (a, b) = choose|a: int, b: int|
                0 <= a < s.drop_last().len() && 0 <= b < s.drop_last().len() && a != b
                    && s.drop_last()[a] == g[i] && s.drop_last()[b] == g[j];
            assert(s[a] == f[i] && s[b] == f[j]);
        } else if i < n {
            lemme_filtre_appartient(s.drop_last(), p, g[i]);
            let a = choose|a: int| 0 <= a < s.drop_last().len() && s.drop_last()[a] == g[i];
            assert(s[a] == f[i]);
            assert(s[s.len() - 1] == f[j]);
        } else {
            lemme_filtre_appartient(s.drop_last(), p, g[j]);
            let b = choose|b: int| 0 <= b < s.drop_last().len() && s.drop_last()[b] == g[j];
            assert(s[b] == f[j]);
            assert(s[s.len() - 1] == f[i]);
        }
    } else {
        assert(f == g);
        lemme_filtre_injectif(s.drop_last(), p, i, j);
        let (a, b) = choose|a: int, b: int|
            0 <= a < s.drop_last().len() && 0 <= b < s.drop_last().len() && a != b
                && s.drop_last()[a] == g[i] && s.drop_last()[b] == g[j];
        assert(s[a] == f[i] && s[b] == f[j]);
    }
}

/// Ajouter une voiture au parc garde des identifiants distincts.
pub proof fn loi_ajout_voiture_idents(avant: App, apres: App, annee: int, sauver: bool)
    requires
        voiture_ajoutee(avant, apres, annee, sauver),
        idents_distincts(avant.voitures@),
    ensures
        idents_distincts(apres.voitures@),
{
    if sauver {
        loi_ajout_idents(avant.voitures@, apres.voitures@);
    }
}

/// Ajouter une voiture à vendre garde des identifiants distincts.
pub proof fn loi_ajout_vente_idents(avant: App, apres: App, annee: int, sauver: bool)
    requires
        vente_ajoutee(avant, apres, annee, sauver),
        idents_distincts(avant.ventes@),
    ensures
        idents_distincts(apres.ventes@),
{
    if sauver {
        loi_ajout_idents(avant.ventes@, apres.ventes@);
    }
}

/// Les numéros des contrats sont deux à deux distincts.
pub open spec fn numeros_distincts(cs: Seq<Contrat>) -> bool {
    forall|i: int, j: int|
        0 <= i < cs.len() && 0 <= j < cs.len() && i != j ==> (#[trigger] cs[i]).numero@ != (
        #[trigger] cs[j]).numero@
}

/// Enregistrer un nouveau contrat (hors modification) garde des numéros de
/// contrat distincts : un numéro déjà pris est refusé.
pub proof fn loi_enregistrement_numeros_distincts(avant: App, apres: App, t: int, sauver: bool)
    requires
        contrat_enregistre(avant, apres, t, sauver),
        avant.formulaire.en_edition is None,
        numeros_distincts(avant.contrats@),
    ensures
        numeros_distincts(apres.contrats@),
{
    let cs = avant.contrats@;
    let n = cs.len() as int;
    if sauver {
        let r = apres.contrats@;
        assert forall|i: int, j: int|
            0 <= i < r.len() && 0 <= j < r.len() && i != j implies (#[trigger] r[i]).numero@ != (
            #[trigger] r[j]).numero@ by {
            if i < n && j < n {
                assert(r[i] == cs[i] && r[j] == cs[j]);
            } else if i == n {
                assert(r[j] == cs[j]);
                assert(cs[j].numero@ != r[n].numero@);
            } else {
                assert(r[i] == cs[i]);
                assert(cs[i].numero@ != r[n].numero@);
            }
        }
    }
}

/// Les clés (rognées, en minuscules) des plaques du parc sont deux à deux
/// distinctes.
pub open spec fn plaques_distinctes(vs: Seq<Voiture>) -> bool {
    forall|i: int, j: int|
        0 <= i < vs.len() && 0 <= j < vs.len() && i != j ==> cle_texte((#[trigger] vs[i]).plaque@)
            != cle_texte((#[trigger] vs[j]).plaque@)
}

/// Ajouter une voiture au parc garde des plaques distinctes : une plaque
/// déjà présente (à la casse et aux espaces près) est refusée.
pub proof fn loi_ajout_voiture_plaques(avant: App, apres: App, annee: int, sauver: bool)
    requires
        voiture_ajoutee(avant, apres, annee, sauver),
        plaques_distinctes(avant.voitures@),
    ensures
        plaques_distinctes(apres.voitures@),
{
    let vs = avant.voitures@;
    let n = vs.len() as int;
    if sauver {
        let r = apres.voitures@;
        let p = avant.form_voiture.plaque@;
        lemme_rogne_rogne(p);
        assert(cle_texte(r[n].plaque@) == cle_texte(p));
        assert forall|i: int, j: int|
            0 <= i < r.len() && 0 <= j < r.len() && i != j implies cle_texte(
            (#[trigger] r[i]).plaque@,
        ) != cle_texte((#[trigger] r[j]).plaque@) by {
            if i < n {
                assert(r[i] == r.take(n)[i]);
            }
            if j < n {
                assert(r[j] == r.take(n)[j]);
            }
            if i < n && j < n {
                assert(r[i] == vs[i] && r[j] == vs[j]);
            } else if i == n {
                assert(r[j] == vs[j]);
                assert(cle_texte(vs[j].plaque@) != cle_texte(p));
            } else {
                assert(r[i] == vs[i]);
                assert(cle_texte(vs[i].plaque@) != cle_texte(p));
            }
        }
    }
}

/// Les clés (rognées, en minuscules) des numéros de châssis des voitures à
/// vendre sont deux à deux distinctes.
pub open spec fn chassis_distincts(vs: Seq<VoitureVente>) -> bool {
    forall|i: int, j: int|
        0 <= i < vs.len() && 0 <= j < vs.len() && i != j ==> cle_texte(
            (#[trigger] vs[i]).num_chassis@,
        ) != cle_texte((#[trigger] vs[j]).num_chassis@)
}

/// Ajouter une voiture à vendre garde des numéros de châssis distincts : un
/// numéro déjà présent (à la casse et aux espaces près) est refusé.
pub proof fn loi_ajout_vente_chassis(avant: App, apres: App, annee: int, sauver: bool)
    requires
        vente_ajoutee(avant, apres, annee, sauver),
        chassis_distincts(avant.ventes@),
    ensures
        chassis_distincts(apres.ventes@),
{
    let vs = avant.ventes@;
    let n = vs.len() as int;
    if sauver {
        let r = apres.ventes@;
        let p = avant.form_vente.chassis@;
        lemme_rogne_rogne(p);
        assert(cle_texte(r[n].num_chassis@) == cle_texte(p));
        assert forall|i: int, j: int|
            0 <= i < r.len() && 0 <= j < r.len() && i != j implies cle_texte(
            (#[trigger] r[i]).num_chassis@,
        ) != cle_texte((#[trigger] r[j]).num_chassis@) by {
            if i < n {
                assert(r[i] == r.take(n)[i]);
            }
            if j < n {
                assert(r[j] == r.take(n)[j]);
            }
            if i < n && j < n {
                assert(r[i] == vs[i] && r[j] == vs[j]);
            } else if i == n {
                assert(r[j] == vs[j]);
                assert(cle_texte(vs[j].num_chassis@) != cle_texte(p));
            } else {
                assert(r[i] == vs[i]);
                assert(cle_texte(vs[i].num_chassis@) != cle_texte(p));
            }
        }
    }
}

/// Créer une période de caisse garde des identifiants distincts.
pub proof fn loi_creation_periode_idents(avant: App, apres: App, t: int, sauver: bool)
    requires
        periode_creee(avant, apres, t, sauver),
        idents_distincts(avant.caisse_periodes@),
    ensures
        idents_distincts(apres.caisse_periodes@),
{
    if sauver {
        loi_ajout_idents(avant.caisse_periodes@, apres.caisse_periodes@);
    }
}

/// Ajouter un encaissement garde des identifiants distincts.
pub proof fn loi_ajout_encaissement_idents(avant: App, apres: App, pid: u64, t: int, sauver: bool)
    requires
        encaissement_ajoute(avant, apres, pid, t, sauver),
        idents_distincts(avant.caisse_encaissements@),
    ensures
        idents_distincts(apres.caisse_encaissements@),
{
    if sauver {
        loi_ajout_idents(avant.caisse_encaissements@, apres.caisse_encaissements@);
    }
}

/// Ajouter un décaissement garde des identifiants distincts.
pub proof fn loi_ajout_decaissement_idents(avant: App, apres: App, pid: u64, t: int, sauver: bool)
    requires
        decaissement_ajoute(avant, apres, pid, t, sauver),
        idents_distincts(avant.caisse_decaissements@),
    ensures
        idents_distincts(apres.caisse_decaissements@),
{
    if sauver {
        loi_ajout_idents(avant.caisse_decaissements@, apres.caisse_decaissements@);
    }
}

/// Après la suppression d'une période, aucun mouvement de caisse ne lui est
/// plus rattaché et les mouvements des autres périodes restent.
pub proof fn loi_suppression_periode(encs: Seq<Encaissement>, decs: Seq<Decaissement>, pid: u64)
    ensures
        forall|e: Encaissement|
            encs.filter(hors_periode_enc(pid)).contains(e) <==> encs.contains(e) && e.periode_id != pid,
        forall|d: Decaissement|
            decs.filter(hors_periode_dec(pid)).contains(d) <==> decs.contains(d) && d.periode_id != pid,
{
    assert forall|e: Encaissement|
        encs.filter(hors_periode_enc(pid)).contains(e) <==> encs.contains(e) && e.periode_id != pid by {
        lemme_filtre_appartient(encs, hors_periode_enc(pid), e);
    }
    assert forall|d: Decaissement|
        decs.filter(hors_periode_dec(pid)).contains(d) <==> decs.contains(d) && d.periode_id != pid by {
        lemme_filtre_appartient(decs, hors_periode_dec(pid), d);
    }
}

/// Aller vers une autre page puis revenir ramène à la page de départ, sans
/// autre page en mémoire.
pub proof fn loi_retour_apres_navigation(a: App, dest: Onglet)
    requires
        a.onglet != dest,
    ensures
        retour(navigation(a, dest)) == (App { onglet_prec: None, ..a }),
{
}

/// Changer deux fois de thème ramène au thème de départ.
pub proof fn loi_double_bascule(a: App)
    ensures
        bascule(bascule(a)) == a,
{
}

/// Une carte teintée d'opacité nulle est la couleur des cartes ; d'opacité
/// pleine, la teinte ; chaque composante reste entre les deux.
pub proof fn loi_teinte(theme: Theme, tint: Rgb, alpha: u8)
    ensures
        melange(theme.carte.r, tint.r, 0) == theme.carte.r,
        melange(theme.carte.r, tint.r, 255) == tint.r,
        (theme.carte.r <= tint.r ==> theme.carte.r <= melange(theme.carte.r, tint.r, alpha) <= tint.r),
        (tint.r <= theme.carte.r ==> tint.r <= melange(theme.carte.r, tint.r, alpha) <= theme.carte.r),
{
    lemme_melange(theme.carte.r, tint.r, alpha);
}

/// Le mélange de deux composantes reste entre elles et vaut chacune aux
/// opacités extrêmes.
pub proof fn lemme_melange(base: u8, t: u8, a: u8)
    ensures
        melange(base, t, 0) == base,
        melange(base, t, 255) == t,
        base <= t ==> base <= melange(base, t, a) <= t,
        t <= base ==> t <= melange(base, t, a) <= base,
{
    assert(melange(base, t, 0) == base) by (nonlinear_arith);
    assert(melange(base, t, 255) == t) by (nonlinear_arith);
    let x = base * (255 - a) + t * a;
    if base <= t {
        assert(base * 255 <= x <= t * 255) by (nonlinear_arith)
            requires
                base <= t,
                a <= 255,
                x == base * (255 - a) + t * a,
        ;
    } else {
        assert(t * 255 <= x <= base * 255) by (nonlinear_arith)
            requires
                t <= base,
                a <= 255,
                x == base * (255 - a) + t * a,
        ;
    }
}

/// Après « Voiture rendue », le contrat rendu ne figure plus parmi les
/// retours à traiter, quel que soit le jour.
pub proof fn loi_rendu_traite(avant: App, apres: App, cid: u64, t: int)
    requires
        statut_change(avant.contrats@, apres.contrats@, cid, statut_termine()),
        apres.tableau.alerte_retour_ok@ == avant.tableau.alerte_retour_ok@.insert(cid),
    ensures
        forall|c: Contrat|
            apres.contrats@.filter(a_traiter(apres.tableau.alerte_retour_ok@, t)).contains(c) ==> c.id
                != cid,
{
    assert forall|c: Contrat|
        apres.contrats@.filter(a_traiter(apres.tableau.alerte_retour_ok@, t)).contains(c) implies c.id
        != cid by {
        lemme_filtre_appartient(apres.contrats@, a_traiter(apres.tableau.alerte_retour_ok@, t), c);
    }
}

/// Les pages d'une liste la couvrent : chaque élément de rang `i` est sur la
/// page `i / par`, qui existe, entre son début et sa fin.
pub proof fn loi_pages_couvrent(n: int, par: int, i: int)
    requires
        par > 0,
        0 <= i < n,
    ensures
        0 <= i / par < pages_pour(n, par),
        debut_page(i / par, n, par) <= i < fin_page(i / par, n, par),
{
    let p = i / par;
    assert(p * par <= i < p * par + par) by (nonlinear_arith)
        requires
            p == i / par,
            par > 0,
            i >= 0,
    ;
    assert(0 <= p) by (nonlinear_arith)
        requires
            p == i / par,
            par > 0,
            i >= 0,
    ;
    assert(p < (n + par - 1) / par) by (nonlinear_arith)
        requires
            p * par <= i,
            i < n,
            par > 0,
            p >= 0,
    {
        assert(p * par + par <= n + par - 1);
        assert((p + 1) * par <= n + par - 1);
        vstd::arithmetic::div_mod::lemma_div_is_ordered((p + 1) * par, n + par - 1, par);
        vstd::arithmetic::div_mod::lemma_div_multiples_vanish(p + 1, par);
    }
}

/// Deux pages distinctes n'ont aucun élément en commun : la page suivante
/// commence où la précédente finit.
pub proof fn loi_pages_consecutives(n: int, par: int, p: int)
    requires
        par > 0,
        p >= 0,
        n >= 0,
    ensures
        fin_page(p, n, par) == debut_page(p + 1, n, par),
        debut_page(p, n, par) <= fin_page(p, n, par),
{
    assert((p + 1) * par == p * par + par) by (nonlinear_arith);
}

/// Une voiture trouvée libre sur une période peut y être louée : un nouveau
/// contrat pour cette voiture sur ces dates n'est pas refusé pour conflit.
pub proof fn loi_voiture_libre_louable(app: App, du: int, au: int, t: int)
    requires
        app.formulaire.en_edition is None,
        voiture_choisie(app.formulaire, app.voitures@),
        ids_libres(app.voitures@, app.contrats@, du, au).contains(
            app.voitures@[app.formulaire.voiture - 1].id,
        ),
        date_saisie(app.formulaire.debut@) == Some(du),
        date_saisie(app.formulaire.fin@) == Some(au),
    ensures
        erreur_enregistrement(app, t) != Some("Ce véhicule est déjà loué sur cette période !"@),
{
    let vs = app.voitures@;
    let cs = app.contrats@;
    let id = vs[app.formulaire.voiture - 1].id;
    let libres = vs.filter(crate::dispo::libre(cs, du, au));
    let ids = libres.map_values(|v: Voiture| v.id);
    assert(ids == ids_libres(vs, cs, du, au));
    let k = choose|k: int| 0 <= k < ids.len() && #[trigger] ids[k] == id;
    assert(libres[k].id == id);
    assert(libres.contains(libres[k]));
    lemme_filtre_appartient(vs, crate::dispo::libre(cs, du, au), libres[k]);
    assert(crate::dispo::libre(cs, du, au)(libres[k]));
    assert(crate::agence::disponible(cs, id, du, au, None));
    assert(crate::formulaire::contrat_exclu(app.formulaire, cs) is None);
    reveal_strlit("Ce véhicule est déjà loué sur cette période !");
    reveal_strlit("Sélectionnez un véhicule ou décrivez le type.");
    reveal_strlit("Le nom du client est obligatoire.");
    reveal_strlit("L'agent commercial est obligatoire.");
    reveal_strlit("Date de début invalide (JJ/MM/AAAA).");
    reveal_strlit("Date de fin invalide (JJ/MM/AAAA).");
    reveal_strlit("La date de début doit être avant la date de fin.");
    reveal_strlit("Prix par jour invalide.");
    reveal_strlit("Ce numéro de contrat existe déjà.");
    let conflit = "Ce véhicule est déjà loué sur cette période !"@;
    assert(conflit.len() == 45);
    assert("Sélectionnez un véhicule ou décrivez le type."@[0] != conflit[0]);
    assert("Le nom du client est obligatoire."@ != conflit);
    assert("L'agent commercial est obligatoire."@ != conflit);
    assert("Date de début invalide (JJ/MM/AAAA)."@ != conflit);
    assert("Date de fin invalide (JJ/MM/AAAA)."@ != conflit);
    assert("La date de début doit être avant la date de fin."@ != conflit);
    assert("Prix par jour invalide."@ != conflit);
    assert("Ce numéro de contrat existe déjà."@ != conflit);
}

/// Le reste à payer d'un contrat n'est jamais négatif ; il est nul dès que
/// le paiement couvre le total et, pour un paiement et un total positifs ou
/// nuls, il ne dépasse pas le total.
pub proof fn loi_reste_a_payer(c: Contrat)
    ensures
        reste_contrat(c) >= 0,
        c.montant_paye >= total_contrat(c) ==> reste_contrat(c) == 0,
        c.montant_paye >= 0 && total_contrat(c) >= 0 ==> reste_contrat(c) <= total_contrat(c),
        c.montant_paye < total_contrat(c) ==> reste_contrat(c) + c.montant_paye == total_contrat(c),
{
}


/// La place d'insertion d'un contrat : avant elle, des clés supérieures ou
/// égales à la sienne ; à elle, une clé strictement plus petite.
proof fn lemme_rang_insertion(s: Seq<Contrat>, c: Contrat, t: int, k: int)
    requires
        0 <= k <= s.len(),
    ensures
        k <= rang_insertion(s, c, t, k) <= s.len(),
        forall|m: int| k <= m < rang_insertion(s, c, t, k) ==> cle_debut(#[trigger] s[m], t) >= cle_debut(c, t),
        rang_insertion(s, c, t, k) < s.len() ==> cle_debut(s[rang_insertion(s, c, t, k)], t) < cle_debut(c, t),
    decreases s.len() - k,
{
    if k < s.len() && !(cle_debut(s[k], t) < cle_debut(c, t)) {
        lemme_rang_insertion(s, c, t, k + 1);
    }
}

/// Suite de contrats triée par clé de début décroissante.
pub open spec fn triee_par_debut(s: Seq<Contrat>, t: int) -> bool {
    forall|i: int, j: int| 0 <= i < j < s.len() ==> cle_debut(#[trigger] s[i], t) >= cle_debut(#[trigger] s[j], t)
}

/// Le tri des contrats par date de début les range du plus récent au plus
/// ancien, sans en perdre ni en ajouter.
pub proof fn loi_tri_par_debut(s: Seq<Contrat>, t: int)
    ensures
        triee_par_debut(tri_par_debut(s, t), t),
        tri_par_debut(s, t).to_multiset() == s.to_multiset(),
    decreases s.len(),
{
    broadcast use vstd::seq_lib::to_multiset_build, vstd::seq_lib::to_multiset_insert;
    if s.len() > 0 {
        let a = tri_par_debut(s.drop_last(), t);
        let x = s.last();
        loi_tri_par_debut(s.drop_last(), t);
        lemme_rang_insertion(a, x, t, 0);
        let r = rang_insertion(a, x, t, 0);
        let b = a.insert(r, x);
        assert(b == tri_par_debut(s, t));
        assert forall|i: int, j: int| 0 <= i < j < b.len() implies cle_debut(#[trigger] b[i], t) >= cle_debut(#[trigger] b[j], t) by {
            if j < r {
                assert(b[i] == a[i] && b[j] == a[j]);
            } else if j == r {
                assert(b[i] == a[i] && b[j] == x);
            } else if i < r {
                assert(b[i] == a[i] && b[j] == a[j - 1]);
            } else if i == r {
                assert(b[i] == x && b[j] == a[j - 1]);
                assert(cle_debut(a[r], t) >= cle_debut(a[j - 1], t) || r == j - 1);
            } else {
                assert(b[i] == a[i - 1] && b[j] == a[j - 1]);
            }
        }
        assert(s == s.drop_last().push(x));
        assert(s.to_multiset() == s.drop_last().to_multiset().insert(x));
    }
}

/// L'historique d'une voiture est rangé du contrat le plus récent au plus
/// ancien et contient exactement ses contrats non annulés.
pub proof fn loi_historique_trie(s: Seq<Contrat>, vid: u64, t: int)
    ensures
        triee_par_debut(historique(s, vid, t), t),
        historique(s, vid, t).to_multiset() == contrats_de_voiture(s, vid).to_multiset(),
{
    loi_tri_par_debut(contrats_de_voiture(s, vid), t);
}


/// L'ordre des textes est transitif à partir de toute position.
proof fn lemme_lex_transitif(a: Seq<char>, b: Seq<char>, c: Seq<char>, i: int)
    requires
        i >= 0,
        lex_inf_depuis(a, b, i),
        lex_inf_depuis(b, c, i),
    ensures
        lex_inf_depuis(a, c, i),
    decreases a.len() - i,
{
    if i < a.len() && a[i] == b[i] && b[i] == c[i] {
        lemme_lex_transitif(a, b, c, i + 1);
    }
}

/// Aucun texte ne précède strictement lui-même.
proof fn lemme_lex_irreflexif(a: Seq<char>, i: int)
    requires
        i >= 0,
    ensures
        !lex_inf_depuis(a, a, i),
    decreases a.len() - i,
{
    if i < a.len() {
        lemme_lex_irreflexif(a, i + 1);
    }
}

/// L'ordre strict des textes : transitif et irréflexif.
pub proof fn loi_ordre_des_textes(a: Seq<char>, b: Seq<char>, c: Seq<char>)
    ensures
        lex_inf(a, b) && lex_inf(b, c) ==> lex_inf(a, c),
        !lex_inf(a, a),
{
    if lex_inf(a, b) && lex_inf(b, c) {
        lemme_lex_transitif(a, b, c, 0);
    }
    lemme_lex_irreflexif(a, 0);
}

/// La place d'insertion d'une réparation : avant elle, des dates qui ne
/// précèdent pas la sienne ; à elle, une date qui la précède.
proof fn lemme_rang_par_date(s: Seq<Reparation>, x: Reparation, k: int)
    requires
        0 <= k <= s.len(),
    ensures
        k <= rang_par_date(s, x, k) <= s.len(),
        forall|m: int| k <= m < rang_par_date(s, x, k) ==> !lex_inf((#[trigger] s[m]).date@, x.date@),
        rang_par_date(s, x, k) < s.len() ==> lex_inf(s[rang_par_date(s, x, k)].date@, x.date@),
    decreases s.len() - k,
{
    if k < s.len() && !lex_inf(s[k].date@, x.date@) {
        lemme_rang_par_date(s, x, k + 1);
    }
}

/// Suite de réparations triée par date (texte) décroissante.
pub open spec fn triee_par_date(s: Seq<Reparation>) -> bool {
    forall|i: int, j: int| 0 <= i < j < s.len() ==> !lex_inf((#[trigger] s[i]).date@, (#[trigger] s[j]).date@)
}

/// Le tri des réparations les range de la plus récente à la plus ancienne,
/// sans en perdre ni en ajouter.
pub proof fn loi_tri_par_date(s: Seq<Reparation>)
    ensures
        triee_par_date(tri_par_date(s)),
        tri_par_date(s).to_multiset() == s.to_multiset(),
    decreases s.len(),
{
    broadcast use vstd::seq_lib::to_multiset_build, vstd::seq_lib::to_multiset_insert;
    if s.len() > 0 {
        let a = tri_par_date(s.drop_last());
        let x = s.last();
        loi_tri_par_date(s.drop_last());
        lemme_rang_par_date(a, x, 0);
        let r = rang_par_date(a, x, 0);
        let b = a.insert(r, x);
        assert(b == tri_par_date(s));
        assert forall|i: int, j: int| 0 <= i < j < b.len() implies !lex_inf((#[trigger] b[i]).date@, (#[trigger] b[j]).date@) by {
            if j < r {
                assert(b[i] == a[i] && b[j] == a[j]);
            } else if j == r {
                assert(b[i] == a[i] && b[j] == x);
            } else if i < r {
                assert(b[i] == a[i] && b[j] == a[j - 1]);
            } else if i == r {
                assert(b[i] == x && b[j] == a[j - 1]);
                assert(lex_inf(a[r].date@, x.date@));
                if lex_inf(x.date@, a[j - 1].date@) {
                    loi_ordre_des_textes(a[r].date@, x.date@, a[j - 1].date@);
                    if r < j - 1 {
                        assert(!lex_inf(a[r].date@, a[j - 1].date@));
                    }
                }
            } else {
                assert(b[i] == a[i - 1] && b[j] == a[j - 1]);
            }
        }
        assert(s == s.drop_last().push(x));
        assert(s.to_multiset() == s.drop_last().to_multiset().insert(x));
    }
}

/// Réordonner une suite sans perte ni ajout garde ses identifiants distincts.
pub proof fn loi_permutation_idents<T: Identifie>(a: Seq<T>, b: Seq<T>)
    requires
        a.to_multiset() == b.to_multiset(),
        idents_distincts(a),
    ensures
        idents_distincts(b),
{
    broadcast use vstd::seq_lib::group_to_multiset_ensures;
    assert(a.no_duplicates());
    a.lemma_multiset_has_no_duplicates();
    b.lemma_multiset_has_no_duplicates_conv();
    assert forall|i: int, j: int|
        0 <= i < b.len() && 0 <= j < b.len() && i != j implies (#[trigger] b[i]).ident() != (
        #[trigger] b[j]).ident() by {
        assert(b.contains(b[i]));
        assert(b.contains(b[j]));
        assert(b.to_multiset().count(b[i]) > 0);
        assert(b.to_multiset().count(b[j]) > 0);
        assert(a.contains(b[i]));
        assert(a.contains(b[j]));
        let p = choose|p: int| 0 <= p < a.len() && a[p] == b[i];
        let q = choose|q: int| 0 <= q < a.len() && a[q] == b[j];
        assert(b[i] != b[j]);
        assert(p != q);
    }
}

/// Enregistrer une réparation (ajout puis tri par date) garde des
/// identifiants distincts.
pub proof fn loi_ajout_reparation_idents(avant: App, apres: App, t: int, sauver: bool)
    requires
        reparation_ajoutee(avant, apres, t, sauver),
        idents_distincts(avant.reparations@),
    ensures
        idents_distincts(apres.reparations@),
{
    if sauver {
        let n = choose|n: Reparation|
            reparation_saisie(n, avant) && apres.reparations@ == tri_par_date(avant.reparations@.push(n));
        let p = avant.reparations@.push(n);
        assert(p.take(avant.reparations@.len() as int) =~= avant.reparations@);
        loi_ajout_idents(avant.reparations@, p);
        loi_tri_par_date(p);
        loi_permutation_idents(p, apres.reparations@);
    }
}


/// La place d'insertion d'une voiture dans la liste triée par modèle : avant
/// elle, des modèles qui ne suivent pas le sien ; à elle, un modèle qui le suit.
proof fn lemme_place_modele(vs: Seq<Voiture>, r: Seq<usize>, i: usize, k: int)
    requires
        0 <= k <= r.len(),
    ensures
        k <= place_modele(vs, r, i, k) <= r.len(),
        forall|m: int| k <= m < place_modele(vs, r, i, k) ==> !lex_inf(cle_modele(vs, i), cle_modele(vs, #[trigger] r[m])),
        place_modele(vs, r, i, k) < r.len() ==> lex_inf(cle_modele(vs, i), cle_modele(vs, r[place_modele(vs, r, i, k)])),
    decreases r.len() - k,
{
    if k < r.len() && !lex_inf(cle_modele(vs, i), cle_modele(vs, r[k])) {
        lemme_place_modele(vs, r, i, k + 1);
    }
}

/// Les rangs de 0 à `n` exclu, dans l'ordre.
pub open spec fn rangs_jusqua(n: int) -> Seq<usize> {
    Seq::new(n as nat, |i: int| i as usize)
}

/// Rangs de voitures triés par modèle croissant (en minuscules).
pub open spec fn triee_par_modele(vs: Seq<Voiture>, r: Seq<usize>) -> bool {
    forall|i: int, j: int| 0 <= i < j < r.len() ==> !lex_inf(cle_modele(vs, #[trigger] r[j]), cle_modele(vs, #[trigger] r[i]))
}

/// La liste des voitures proposées au choix est rangée par modèle croissant
/// et contient chaque rang du parc une fois.
pub proof fn loi_tri_modele(vs: Seq<Voiture>, n: int)
    requires
        n >= 0,
    ensures
        triee_par_modele(vs, tri_modele(vs, n)),
        tri_modele(vs, n).to_multiset() == rangs_jusqua(n).to_multiset(),
    decreases n,
{
    broadcast use vstd::seq_lib::to_multiset_build, vstd::seq_lib::to_multiset_insert;
    if n == 0 {
        assert(rangs_jusqua(0) =~= Seq::<usize>::empty());
    } else {
        let a = tri_modele(vs, n - 1);
        let x = (n - 1) as usize;
        loi_tri_modele(vs, n - 1);
        lemme_place_modele(vs, a, x, 0);
        let r = place_modele(vs, a, x, 0);
        let b = a.insert(r, x);
        assert(b == tri_modele(vs, n));
        assert forall|i: int, j: int| 0 <= i < j < b.len() implies !lex_inf(cle_modele(vs, #[trigger] b[j]), cle_modele(vs, #[trigger] b[i])) by {
            if j < r {
                assert(b[i] == a[i] && b[j] == a[j]);
            } else if j == r {
                assert(b[i] == a[i] && b[j] == x);
            } else if i < r {
                assert(b[i] == a[i] && b[j] == a[j - 1]);
            } else if i == r {
                assert(b[i] == x && b[j] == a[j - 1]);
                assert(lex_inf(cle_modele(vs, x), cle_modele(vs, a[r])));
                if lex_inf(cle_modele(vs, a[j - 1]), cle_modele(vs, x)) {
                    loi_ordre_des_textes(cle_modele(vs, a[j - 1]), cle_modele(vs, x), cle_modele(vs, a[r]));
                    if r < j - 1 {
                        assert(!lex_inf(cle_modele(vs, a[j - 1]), cle_modele(vs, a[r])));
                    }
                }
            } else {
                assert(b[i] == a[i - 1] && b[j] == a[j - 1]);
            }
        }
        assert(rangs_jusqua(n) =~= rangs_jusqua(n - 1).push(x));
    }
}


/// Chercher les voitures libres sur une période puis louer l'une d'elles :
/// le contrat saisi pour cette voiture, sur les dates de la recherche, n'est
/// pas refusé pour conflit (tant que les contrats n'ont pas changé depuis la
/// recherche).
pub proof fn loi_recherche_puis_location(avant: App, apres: App, vid: u64, k: int, t: int)
    requires
        date_saisie(avant.dispo.du@) is Some,
        date_saisie(avant.dispo.au@) is Some,
        avant.dispo.ids@ == ids_libres(
            avant.voitures@,
            avant.contrats@,
            date_saisie(avant.dispo.du@)->0,
            date_saisie(avant.dispo.au@)->0,
        ),
        avant.dispo.ids@.contains(vid),
        avant.formulaire.en_edition is None,
        rang_ident(avant.voitures@, vid, k),
        location_preparee(apres.formulaire, avant.formulaire, avant.dispo, k, avant.voitures@[k].tarif_jour),
        apres.voitures == avant.voitures,
        apres.contrats == avant.contrats,
    ensures
        erreur_enregistrement(apres, t) != Some("Ce véhicule est déjà loué sur cette période !"@),
{
    let du = date_saisie(avant.dispo.du@)->0;
    let au = date_saisie(avant.dispo.au@)->0;
    assert(apres.voitures@[apres.formulaire.voiture - 1].id == vid);
    loi_voiture_libre_louable(apres, du, au, t);
}

} // verus!
