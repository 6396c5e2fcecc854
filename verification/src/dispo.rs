//! Recherche de disponibilité : voitures libres sur une période, recherche par
//! modèle, et remise à jour de la recherche après relecture des données.
use vstd::prelude::*;
use vstd::string::*;
use crate::theme::{Rgb, Theme, rouge_iam, ambre, indigo, vert, couleur_rouge_iam, couleur_ambre,
    couleur_indigo, couleur_vert};
use crate::date::{Date, date_saisie, jour_opt, parse_date, jour_valide, date_ecrite,
    format_jma, texte_jma, dans_7j, texte_dans_7j};
use crate::modeles::{Voiture, Contrat};
use crate::montant::{ecriture_arrondie, texte_arrondi};
use crate::texte::{rogne, est_blanc, est_blanc_texte, cle_texte, cle_de, minuscules, en_minuscules,
    contient, contient_spec};
use crate::agence::{App, Onglet, RechercheDispo, FormulaireContrat, disponible};
use crate::modeles::{rang_ident, absent, chercher_ident, lemme_rang_unique};
use crate::montant::{ecriture_decimale, texte_decimal};
use crate::fenetres::teinte;
use crate::statut::{statut_attendu, vue_statut, vue_paires};
use crate::outils::{lemme_filtre_pas, lemme_filtre_vide};

verus! {

/// La voiture est libre sur la période (aucun contrat exclu).
pub open spec fn libre(cs: Seq<Contrat>, du: int, au: int) -> spec_fn(Voiture) -> bool {
    |v: Voiture| disponible(cs, v.id, du, au, None)
}

/// Identifiants des voitures libres de `du` à `au`, dans l'ordre du parc.
pub open spec fn ids_libres(vs: Seq<Voiture>, cs: Seq<Contrat>, du: int, au: int) -> Seq<u64> {
    vs.filter(libre(cs, du, au)).map_values(|v: Voiture| v.id)
}

/// Message d'une période dont le début suit la fin.
pub open spec fn msg_ordre_dates() -> Seq<char> {
    "La date de début doit être avant la date de fin."@
}

/// Message d'une date illisible.
pub open spec fn msg_format_date() -> Seq<char> {
    "Format invalide. Utilisez JJ/MM/AAAA."@
}

/// Message d'une recherche par modèle sans texte.
pub open spec fn msg_recherche_vide() -> Seq<char> {
    "Entrez un modèle ou un type à rechercher."@
}

/// Message d'une recherche par modèle sans résultat.
pub open spec fn msg_aucun_resultat() -> Seq<char> {
    "Aucune voiture ne correspond à cette recherche."@
}

/// Texte décrivant une voiture pour la recherche : modèle, catégorie et
/// couleur, chacun en minuscules, séparés d'une espace. C'est le texte joint
/// mis en minuscules : `str::to_lowercase` ne regarde le contexte d'un
/// caractère (sigma final) qu'à travers les lettres et les signes ignorés par
/// la casse, ce que n'est pas l'espace.
pub open spec fn description(v: Voiture) -> Seq<char> {
    minuscules(v.modele@) + " "@ + minuscules(v.categorie@) + " "@ + minuscules(v.couleur@)
}

/// La description de la voiture contient `q`.
pub open spec fn decrite_par(q: Seq<char>) -> spec_fn(Voiture) -> bool {
    |v: Voiture| contient_spec(description(v), q)
}

/// Les textes d'une suite de lignes, joints par `sep`.
pub open spec fn joindre(s: Seq<(Seq<char>, Rgb)>, sep: Seq<char>) -> Seq<char>
    decreases s.len(),
{
    if s.len() == 0 {
        Seq::empty()
    } else if s.len() == 1 {
        s[0].0
    } else {
        joindre(s.drop_last(), sep) + sep + s.last().0
    }
}

/// Détail d'une voiture trouvée : les lignes de sa situation jointes par « • »,
/// ou son tarif journalier s'il n'y en a aucune.
pub open spec fn detail_voiture(lignes: Seq<(Seq<char>, Rgb)>, v: Voiture) -> Seq<char> {
    if lignes.len() == 0 {
        ecriture_arrondie(v.tarif_jour as int) + " DA/jour"@
    } else {
        joindre(lignes, " • "@)
    }
}

/// Ligne de résultat d'une voiture trouvée le jour `t` : identifiant, modèle,
/// libellé de la situation du jour et détail.
pub open spec fn ligne_modele(app: App, t: int) -> spec_fn(Voiture) -> (u64, Seq<char>, Seq<char>, Seq<char>) {
    |v: Voiture|
        {
            let s = statut_attendu(app.contrats@, app.voitures@, v.id, t, t, t, app.theme.attenue);
            (v.id, v.modele@, s.1, detail_voiture(s.3, v))
        }
}

/// Résultats de la recherche par modèle `q` le jour `t`.
pub open spec fn resultats_modele(app: App, q: Seq<char>, t: int) -> Seq<(u64, Seq<char>, Seq<char>, Seq<char>)> {
    app.voitures@.filter(decrite_par(q)).map_values(ligne_modele(app, t))
}

/// Vue d'une ligne de résultat.
pub open spec fn vue_ligne(x: (u64, String, String, String)) -> (u64, Seq<char>, Seq<char>, Seq<char>) {
    (x.0, x.1@, x.2@, x.3@)
}

/// Vue des lignes de résultat.
pub open spec fn vue_lignes(v: Seq<(u64, String, String, String)>) -> Seq<(u64, Seq<char>, Seq<char>, Seq<char>)> {
    v.map_values(|x: (u64, String, String, String)| vue_ligne(x))
}

/// Effet de la recherche par modèle faite le jour `t` : le texte cherché est
/// la saisie rognée, en minuscules ; vide, la recherche n'a pas lieu. Seuls les
/// résultats et le message changent.
pub open spec fn recherche_modele_faite(avant: App, apres: App, t: int) -> bool {
    let q = cle_texte(avant.dispo.recherche_modele@);
    let d = apres.dispo;
    &&& modele_affiche(d, q, resultats_modele(avant, q, t))
    &&& d == (RechercheDispo { modele_periode: d.modele_periode, erreur: d.erreur, ..avant.dispo })
    &&& apres == (App { dispo: d, ..avant })
}

/// Résultats et message affichés pour la recherche `q` de résultats `res`.
pub open spec fn modele_affiche(d: RechercheDispo, q: Seq<char>, res: Seq<(u64, Seq<char>, Seq<char>, Seq<char>)>) -> bool {
    &&& q.len() == 0 ==> d.modele_periode@.len() == 0 && d.erreur@ == msg_recherche_vide()
    &&& q.len() > 0 ==> vue_lignes(d.modele_periode@) == res
    &&& q.len() > 0 && res.len() == 0 ==> d.erreur@ == msg_aucun_resultat()
    &&& q.len() > 0 && res.len() > 0 ==> d.erreur@.len() == 0
}

/// Joint les textes des lignes par `sep`.
fn joindre_lignes(l: &Vec<(String, Rgb)>, sep: &str) -> (r: String)
    ensures
        r@ == joindre(vue_paires(l@), sep@),
{
    let ghost s = vue_paires(l@);
    let mut r = String::new();
    let mut i: usize = 0;
    assert(s.take(0) =~= Seq::<(Seq<char>, Rgb)>::empty());
    while i < l.len()
        invariant
            s == vue_paires(l@),
            s.len() == l@.len(),
            0 <= i <= l.len(),
            r@ == joindre(s.take(i as int), sep@),
        decreases l.len() - i,
    {
        assert(s.take(i + 1).drop_last() =~= s.take(i as int));
        assert(s.take(i + 1).last() == s[i as int]);
        if i > 0 {
            r.append(sep);
        } else {
            assert(s.take(1) =~= seq![s[0]]);
        }
        r.append(l[i].0.as_str());
        i = i + 1;
    }
    assert(s.take(l.len() as int) =~= s);
    r
}

impl App {
    /// Identifiants des voitures libres de `du` à `au`, dans l'ordre du parc.
    pub fn voitures_libres(&self, du: Date, au: Date) -> (r: Vec<u64>)
        ensures
            r@ == ids_libres(self.voitures@, self.contrats@, du.jour as int, au.jour as int),
    {
        let ghost p = libre(self.contrats@, du.jour as int, au.jour as int);
        let ghost f = |v: Voiture| v.id;
        let mut r: Vec<u64> = Vec::new();
        let mut i: usize = 0;
        proof {
            lemme_filtre_vide(self.voitures@, p);
            assert(r@ =~= self.voitures@.take(0).filter(p).map_values(f));
        }
        while i < self.voitures.len()
            invariant
                0 <= i <= self.voitures.len(),
                p == libre(self.contrats@, du.jour as int, au.jour as int),
                f == (|v: Voiture| v.id),
                r@ == self.voitures@.take(i as int).filter(p).map_values(f),
            decreases self.voitures.len() - i,
        {
            proof {
                lemme_filtre_pas(self.voitures@, p, i as int);
            }
            let v = &self.voitures[i];
            if self.est_disponible(v.id, du, au, None) {
                let ghost avant = self.voitures@.take(i as int).filter(p);
                r.push(v.id);
                assert(avant.push(*v).map_values(f) =~= avant.map_values(f).push(v.id));
            }
            i = i + 1;
        }
        assert(self.voitures@.take(self.voitures.len() as int) =~= self.voitures@);
        r
    }

    /// Cherche les voitures libres sur la période saisie. Si les deux dates se
    /// lisent et sont dans l'ordre, la liste des voitures libres est remplie et
    /// la recherche marquée faite ; sinon seul le message d'erreur change.
    pub fn chercher_dispo_periode(&mut self)
        ensures
            ({
                let du = date_saisie(old(self).dispo.du@);
                let au = date_saisie(old(self).dispo.au@);
                let d = final(self).dispo;
                if du is Some && au is Some && du->0 <= au->0 {
                    &&& d.ids@ == ids_libres(old(self).voitures@, old(self).contrats@, du->0, au->0)
                    &&& d.fait
                    &&& d.erreur@.len() == 0
                    &&& d == (RechercheDispo { ids: d.ids, fait: d.fait, erreur: d.erreur, ..old(self).dispo })
                } else if du is Some && au is Some {
                    &&& d.erreur@ == msg_ordre_dates()
                    &&& d == (RechercheDispo { erreur: d.erreur, ..old(self).dispo })
                } else {
                    &&& d.erreur@ == msg_format_date()
                    &&& d == (RechercheDispo { erreur: d.erreur, ..old(self).dispo })
                }
            }),
            *final(self) == (App { dispo: final(self).dispo, ..*old(self) }),
    {
        let du = parse_date(self.dispo.du.as_str());
        let au = parse_date(self.dispo.au.as_str());
        match (du, au) {
            (Some(a), Some(b)) => {
                if a.jour <= b.jour {
                    let ids = self.voitures_libres(a, b);
                    self.dispo.ids = ids;
                    self.dispo.fait = true;
                    self.dispo.erreur = String::new();
                } else {
                    self.dispo.erreur = String::from_str(
                        "La date de début doit être avant la date de fin.",
                    );
                }
            },
            _ => {
                self.dispo.erreur = String::from_str("Format invalide. Utilisez JJ/MM/AAAA.");
            },
        }
    }
    /// Texte de recherche d'une voiture : modèle, catégorie et couleur en minuscules.
    fn texte_description(v: &Voiture) -> (r: String)
        ensures
            r@ == description(*v),
    {
        let mut d = en_minuscules(v.modele.as_str());
        d.append(" ");
        let c = en_minuscules(v.categorie.as_str());
        d.append(c.as_str());
        d.append(" ");
        let k = en_minuscules(v.couleur.as_str());
        d.append(k.as_str());
        d
    }

    /// Lignes de résultat des voitures dont la description contient `q`, avec
    /// leur situation du jour `t`.
    pub fn lignes_modele(&self, q: &str, t: Date) -> (r: Vec<(u64, String, String, String)>)
        ensures
            vue_lignes(r@) == resultats_modele(*self, q@, t.jour as int),
    {
        let ghost p = decrite_par(q@);
        let ghost g = ligne_modele(*self, t.jour as int);
        let mut r: Vec<(u64, String, String, String)> = Vec::new();
        let mut i: usize = 0;
        proof {
            lemme_filtre_vide(self.voitures@, p);
            assert(vue_lignes(r@) =~= self.voitures@.take(0).filter(p).map_values(g));
        }
        while i < self.voitures.len()
            invariant
                0 <= i <= self.voitures.len(),
                p == decrite_par(q@),
                g == ligne_modele(*self, t.jour as int),
                vue_lignes(r@) == self.voitures@.take(i as int).filter(p).map_values(g),
            decreases self.voitures.len() - i,
        {
            proof {
                lemme_filtre_pas(self.voitures@, p, i as int);
            }
            let v = &self.voitures[i];
            let desc = Self::texte_description(v);
            if contient(desc.as_str(), q) {
                let statut = self.statut_voiture(v.id, t, t, t);
                let detail = if statut.lignes.len() == 0 {
                    let mut d = texte_arrondi(v.tarif_jour as i128);
                    d.append(" DA/jour");
                    d
                } else {
                    joindre_lignes(&statut.lignes, " • ")
                };
                let ligne = (v.id, v.modele.clone(), statut.libelle, detail);
                let ghost avant = self.voitures@.take(i as int).filter(p);
                let ghost vr = r@;
                r.push(ligne);
                proof {
                    assert(vue_paires(statut.lignes@).len() == statut.lignes@.len());
                    assert(vue_ligne(ligne) == g(*v));
                    assert(vue_lignes(r@) =~= vue_lignes(vr).push(vue_ligne(ligne)));
                    assert(avant.push(*v).map_values(g) =~= avant.map_values(g).push(g(*v)));
                }
            }
            i = i + 1;
        }
        assert(self.voitures@.take(self.voitures.len() as int) =~= self.voitures@);
        r
    }

    /// Recherche par modèle, catégorie ou couleur, avec la situation des
    /// voitures trouvées le jour `t`. Le texte cherché est la saisie rognée,
    /// en minuscules ; vide, la recherche n'a pas lieu.
    pub fn chercher_dispo_modele(&mut self, t: Date)
        ensures
            recherche_modele_faite(*old(self), *final(self), t.jour as int),
    {
        let q = cle_de(self.dispo.recherche_modele.as_str());
        if q.as_str().unicode_len() == 0 {
            self.dispo.modele_periode = Vec::new();
            self.dispo.erreur = String::from_str("Entrez un modèle ou un type à rechercher.");
            return;
        }
        let lignes = self.lignes_modele(q.as_str(), t);
        let vide = lignes.len() == 0;
        proof {
            assert(vue_lignes(lignes@).len() == lignes@.len());
        }
        self.dispo.modele_periode = lignes;
        if vide {
            self.dispo.erreur = String::from_str("Aucune voiture ne correspond à cette recherche.");
        } else {
            self.dispo.erreur = String::new();
        }
    }

}


/// Fond de la carte d'une voiture selon la couleur de sa situation : teinte
/// rouge, ambre ou indigo, teinte atténuée, sinon la couleur des cartes.
pub open spec fn fond_carte(theme: Theme, col: Rgb) -> Rgb {
    if col == couleur_rouge_iam() {
        teinte(theme, couleur_rouge_iam(), 60)
    } else if col == couleur_ambre() {
        teinte(theme, couleur_ambre(), 60)
    } else if col == couleur_indigo() {
        teinte(theme, couleur_indigo(), 60)
    } else if col == theme.attenue {
        teinte(theme, theme.attenue, 40)
    } else {
        theme.carte
    }
}

/// Couleur d'un résultat de recherche par modèle d'après le texte de sa
/// situation (mots en capitales) ; vert par défaut.
pub open spec fn couleur_resultat(statut: Seq<char>, attenue: Rgb) -> Rgb {
    if contient_spec(statut, "LIBRE"@) {
        couleur_vert()
    } else if contient_spec(statut, "FUTUR"@) {
        couleur_indigo()
    } else if contient_spec(statut, "PÉRIODE"@) || contient_spec(statut, "PERIODE"@) {
        couleur_rouge_iam()
    } else if contient_spec(statut, "IMPAYÉ"@) || contient_spec(statut, "IMPAYE"@) {
        couleur_ambre()
    } else if contient_spec(statut, "TERMIN"@) {
        attenue
    } else {
        couleur_vert()
    }
}

/// La période affichée : dates saisies, ou le jour `t` pour une date illisible.
pub open spec fn borne_affichee(s: Seq<char>, t: int) -> int {
    match date_saisie(s) {
        Some(d) => d,
        None => t,
    }
}

/// Le formulaire `f` prépare la location de la voiture de rang `k` sur la
/// période recherchée.
pub open spec fn location_preparee(f: FormulaireContrat, avant: FormulaireContrat, d: RechercheDispo, k: int, tarif: i64) -> bool {
    &&& f == (FormulaireContrat { voiture: f.voiture, debut: f.debut, fin: f.fin, tarif: f.tarif, msg: f.msg, ..avant })
    &&& f.voiture == k + 1
    &&& f.debut@ == d.du@
    &&& f.fin@ == d.au@
    &&& f.tarif@ == ecriture_decimale(tarif as int)
    &&& f.msg@.len() == 0
}

impl App {
    /// Fond de la carte d'une voiture selon la couleur de sa situation.
    pub fn fond_carte_de(&self, col: Rgb) -> (r: Rgb)
        ensures
            r == fond_carte(self.theme, col),
    {
        if col == rouge_iam() {
            self.theme.tinted_card(rouge_iam(), 60)
        } else if col == ambre() {
            self.theme.tinted_card(ambre(), 60)
        } else if col == indigo() {
            self.theme.tinted_card(indigo(), 60)
        } else if col == self.theme.muted() {
            self.theme.tinted_card(self.theme.muted(), 40)
        } else {
            self.theme.card()
        }
    }

    /// Couleur d'un résultat de recherche par modèle.
    pub fn couleur_resultat_de(&self, statut: &str) -> (r: Rgb)
        ensures
            r == couleur_resultat(statut@, self.theme.attenue),
    {
        if contient(statut, "LIBRE") {
            vert()
        } else if contient(statut, "FUTUR") {
            indigo()
        } else if contient(statut, "PÉRIODE") || contient(statut, "PERIODE") {
            rouge_iam()
        } else if contient(statut, "IMPAYÉ") || contient(statut, "IMPAYE") {
            ambre()
        } else if contient(statut, "TERMIN") {
            self.theme.muted()
        } else {
            vert()
        }
    }

    /// Dates de la période affichée, le jour `t` remplaçant une date illisible.
    pub fn periode_affichee_le(&self, t: Date) -> (r: (Date, Date))
        ensures
            r.0.jour == borne_affichee(self.dispo.du@, t.jour as int),
            r.1.jour == borne_affichee(self.dispo.au@, t.jour as int),
    {
        let du = match parse_date(self.dispo.du.as_str()) {
            Some(d) => d,
            None => t,
        };
        let au = match parse_date(self.dispo.au.as_str()) {
            Some(d) => d,
            None => t,
        };
        (du, au)
    }

    /// Rangs des voitures trouvées libres, dans l'ordre du parc.
    pub fn voitures_trouvees(&self) -> (r: Vec<usize>)
        ensures
            r@ == crate::tableau::rangs_croissants(self.voitures@, trouvee(self.dispo.ids@)),
    {
        let ghost p = trouvee(self.dispo.ids@);
        let mut r: Vec<usize> = Vec::new();
        let mut i: usize = 0;
        while i < self.voitures.len()
            invariant
                0 <= i <= self.voitures.len(),
                p == trouvee(self.dispo.ids@),
                r@ == crate::tableau::rangs_croissants(self.voitures@.take(i as int), p),
            decreases self.voitures.len() - i,
        {
            let vid = self.voitures[i].id;
            let mut present = false;
            let mut j: usize = 0;
            while j < self.dispo.ids.len()
                invariant
                    0 <= j <= self.dispo.ids.len(),
                    present == exists|m: int| 0 <= m < j && self.dispo.ids@[m] == vid,
                decreases self.dispo.ids.len() - j,
            {
                if self.dispo.ids[j] == vid {
                    present = true;
                }
                j = j + 1;
            }
            assert(self.voitures@.take(i + 1).drop_last() =~= self.voitures@.take(i as int));
            assert(self.voitures@.take(i + 1).last() == self.voitures@[i as int]);
            if present {
                r.push(i);
            }
            i = i + 1;
        }
        assert(self.voitures@.take(self.voitures.len() as int) =~= self.voitures@);
        r
    }

    /// Remet la recherche par période à sa valeur de départ pour le jour `t` :
    /// aujourd'hui et dans sept jours, sans résultat ni erreur.
    pub fn reinitialiser_dispo(&mut self, t: Date)
        requires
            jour_valide(t.jour as int),
        ensures
            final(self).dispo.du@ == date_ecrite(t.jour as int, format_jma()),
            final(self).dispo.au@ == texte_dans_7j(t.jour as int),
            final(self).dispo.ids@.len() == 0,
            !final(self).dispo.fait,
            final(self).dispo.erreur@.len() == 0,
            final(self).dispo == (RechercheDispo {
                du: final(self).dispo.du,
                au: final(self).dispo.au,
                ids: final(self).dispo.ids,
                fait: false,
                erreur: final(self).dispo.erreur,
                ..old(self).dispo
            }),
            *final(self) == (App { dispo: final(self).dispo, ..*old(self) }),
    {
        self.dispo.du = texte_jma(t);
        self.dispo.au = dans_7j(t);
        self.dispo.ids = Vec::new();
        self.dispo.fait = false;
        self.dispo.erreur = String::new();
    }

    /// Efface la recherche par modèle, ses résultats et le message.
    pub fn effacer_recherche_modele(&mut self)
        ensures
            final(self).dispo.recherche_modele@.len() == 0,
            final(self).dispo.modele_periode@.len() == 0,
            final(self).dispo.erreur@.len() == 0,
            final(self).dispo == (RechercheDispo {
                recherche_modele: final(self).dispo.recherche_modele,
                modele_periode: final(self).dispo.modele_periode,
                erreur: final(self).dispo.erreur,
                ..old(self).dispo
            }),
            *final(self) == (App { dispo: final(self).dispo, ..*old(self) }),
    {
        self.dispo.recherche_modele = String::new();
        self.dispo.modele_periode = Vec::new();
        self.dispo.erreur = String::new();
    }

    /// Prépare la location de la voiture `vid` sur la période recherchée et
    /// ouvre la page de saisie ; rien ne change si la voiture n'est pas au parc.
    pub fn louer(&mut self, vid: u64)
        ensures
            absent(old(self).voitures@, vid) ==> *final(self) == *old(self),
            forall|k: int|
                rang_ident(old(self).voitures@, vid, k) ==> {
                    &&& location_preparee(
                        final(self).formulaire,
                        old(self).formulaire,
                        old(self).dispo,
                        k,
                        old(self).voitures@[k].tarif_jour,
                    )
                    &&& final(self).onglet == Onglet::NouveauContrat
                    &&& final(self).onglet_prec == (if old(self).onglet != Onglet::NouveauContrat {
                        Some(old(self).onglet)
                    } else {
                        old(self).onglet_prec
                    })
                    &&& *final(self) == (App {
                        formulaire: final(self).formulaire,
                        onglet: final(self).onglet,
                        onglet_prec: final(self).onglet_prec,
                        ..*old(self)
                    })
                },
    {
        match chercher_ident(&self.voitures, vid) {
            Some(k) => {
                assert(k < self.voitures.len());
                let tarif = texte_decimal(self.voitures[k].tarif_jour);
                let du = self.dispo.du.clone();
                let au = self.dispo.au.clone();
                self.formulaire.voiture = k + 1;
                self.formulaire.debut = du;
                self.formulaire.fin = au;
                self.formulaire.tarif = tarif;
                self.formulaire.msg = String::new();
                self.naviguer(Onglet::NouveauContrat);
                proof {
                    assert forall|k2: int| rang_ident(old(self).voitures@, vid, k2) implies k2 == k by {
                        lemme_rang_unique(old(self).voitures@, vid, k2, k as int);
                    }
                }
            },
            None => {},
        }
    }
}

/// La voiture fait partie des voitures trouvées libres.
pub open spec fn trouvee(ids: Seq<u64>) -> spec_fn(Voiture) -> bool {
    |v: Voiture| ids.contains(v.id)
}

} // verus!
