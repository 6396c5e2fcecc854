//! Tableau de bord : contrats récents filtrés, retours du jour à traiter,
//! voiture rendue, renouvellement, libellés de statut, fenêtres de détail et
//! navigation.
use vstd::prelude::*;
use vstd::string::*;
use crate::theme::{Rgb, Theme, rouge_iam, vert, ambre, indigo, rgb, couleur_rouge_iam, couleur_vert,
    couleur_ambre, couleur_indigo, palette_sombre, palette_claire};
use crate::date::{Date, date_analysee, format_iso, date_iso, jour_valide, affichage_date,
    afficher_date, se_relit_en};
use crate::modeles::{Contrat, Voiture, statut_actif, statut_termine, statut_annule, reste_contrat,
    chevauche_spec, rang_ident, absent, chercher_ident, lemme_rang_unique, sans_ident, retirer_ident};
use crate::montant::{ecriture_decimale, texte_decimal};
use crate::texte::{egal, minuscules, en_minuscules, correspond, correspond_texte};
use crate::agence::{App, Onglet, ModalVoiture, ModalContrat, FormulaireContrat, Tableau,
    loues_le_spec};
use crate::statut::{historique, est_futur};
use crate::outils::{lemme_filtre_pas, lemme_filtre_vide};

verus! {

/// La date ISO de début du contrat se lit et suit le jour `t`.
pub open spec fn debute_apres(c: Contrat, t: int) -> bool {
    match date_analysee(c.date_debut@, format_iso()) {
        Some(d) => d > t,
        None => false,
    }
}

/// Le contrat est en cours ou passé : sa date ISO de début, si elle se lit,
/// ne suit pas le jour `t`.
pub open spec fn debute_au_plus_tard(c: Contrat, t: int) -> bool {
    match date_analysee(c.date_debut@, format_iso()) {
        Some(d) => d <= t,
        None => true,
    }
}

/// Filtre du tableau de bord : 0 tous, 1 actifs commencés, 2 terminés,
/// 3 réservés (actifs à venir) ; toute autre valeur garde tout.
pub open spec fn garde_tableau(filtre: usize, t: int) -> spec_fn(Contrat) -> bool {
    |c: Contrat|
        if filtre == 1 {
            c.statut@ == statut_actif() && debute_au_plus_tard(c, t)
        } else if filtre == 2 {
            c.statut@ == statut_termine()
        } else if filtre == 3 {
            c.statut@ == statut_actif() && debute_apres(c, t)
        } else {
            true
        }
}

/// Rangs, du plus grand au plus petit, des éléments de `s` à partir du rang
/// `j` qui satisfont `p`.
pub open spec fn rangs_desc<A>(s: Seq<A>, p: spec_fn(A) -> bool, j: int) -> Seq<usize>
    decreases s.len() - j,
{
    if j >= s.len() || j < 0 {
        Seq::empty()
    } else if p(s[j]) {
        rangs_desc(s, p, j + 1).push(j as usize)
    } else {
        rangs_desc(s, p, j + 1)
    }
}

/// Rangs, dans l'ordre croissant, des éléments de `s` qui satisfont `p`.
pub open spec fn rangs_croissants<A>(s: Seq<A>, p: spec_fn(A) -> bool) -> Seq<usize>
    decreases s.len(),
{
    if s.len() == 0 {
        Seq::empty()
    } else if p(s.last()) {
        rangs_croissants(s.drop_last(), p).push((s.len() - 1) as usize)
    } else {
        rangs_croissants(s.drop_last(), p)
    }
}

/// Libellé et couleur du statut d'un contrat le jour `t` : un contrat actif
/// qui commence plus tard est « Réservé ».
pub open spec fn statut_affiche(c: Contrat, t: int, attenue: Rgb) -> (Rgb, Seq<char>) {
    if c.statut@ == statut_actif() && debute_apres(c, t) {
        (couleur_indigo(), "Réservé"@)
    } else if c.statut@ == statut_actif() {
        (couleur_vert(), "Actif"@)
    } else if c.statut@ == statut_termine() {
        (attenue, "Terminé"@)
    } else if c.statut@ == statut_annule() {
        (couleur_rouge_iam(), "Annulé"@)
    } else {
        (attenue, c.statut@)
    }
}

/// Retours du jour `t` pas encore traités : contrats actifs dont la date ISO
/// de fin est `t` et dont l'identifiant n'est pas dans `traites`.
pub open spec fn a_traiter(traites: Set<u64>, t: int) -> spec_fn(Contrat) -> bool {
    |c: Contrat|
        c.statut@ == statut_actif() && date_analysee(c.date_fin@, format_iso()) == Some(t)
            && !traites.contains(c.id)
}

/// Le contrat `b` est le contrat `a` au statut `statut`.
pub open spec fn avec_statut(a: Contrat, b: Contrat, statut: Seq<char>) -> bool {
    b == (Contrat { statut: b.statut, ..a }) && b.statut@ == statut
}

/// Le premier contrat d'identifiant `id` prend le statut `statut` ; les autres
/// ne changent pas.
pub open spec fn statut_change(avant: Seq<Contrat>, apres: Seq<Contrat>, id: u64, statut: Seq<char>) -> bool {
    &&& apres.len() == avant.len()
    &&& absent(avant, id) ==> apres == avant
    &&& forall|k: int|
        rang_ident(avant, id, k) ==> avec_statut(avant[k], apres[k], statut) && forall|j: int|
            0 <= j < avant.len() && j != k ==> apres[j] == avant[j]
}

/// Rang, plus un, de la première voiture d'identifiant `vid` ; zéro si elle
/// n'est pas au parc.
pub open spec fn choix_voiture(vs: Seq<Voiture>, vid: u64) -> int {
    if absent(vs, vid) {
        0
    } else {
        (choose|k: int| rang_ident(vs, vid, k)) + 1
    }
}

/// Le formulaire `f` prépare le renouvellement du contrat `c` : même voiture,
/// même client, même agent, même tarif et mêmes notes, à partir de la fin du
/// contrat, sans date de fin et sans paiement.
pub open spec fn renouvellement(f: FormulaireContrat, avant: FormulaireContrat, c: Contrat, vs: Seq<Voiture>) -> bool {
    &&& f == (FormulaireContrat {
        voiture: f.voiture,
        client: f.client,
        tel: f.tel,
        agent: f.agent,
        debut: f.debut,
        fin: f.fin,
        tarif: f.tarif,
        notes: f.notes,
        montant_paye: f.montant_paye,
        msg: f.msg,
        en_edition: None,
        ..avant
    })
    &&& f.voiture == choix_voiture(vs, c.voiture_id)
    &&& f.client@ == c.client_nom@
    &&& f.tel@ == c.client_tel@
    &&& f.agent@ == c.agent@
    &&& f.debut@ == affichage_date(c.date_fin@)
    &&& f.fin@.len() == 0
    &&& f.tarif@ == ecriture_decimale(c.tarif_jour as int)
    &&& f.notes@ == c.notes@
    &&& f.montant_paye@ == "0"@
    &&& f.msg@.len() == 0
}

/// Rang, plus un, de la première voiture d'identifiant `vid` ; zéro si aucune.
pub(crate) fn rang_voiture_de(vs: &Vec<Voiture>, vid: u64) -> (r: usize)
    ensures
        r == choix_voiture(vs@, vid),
{
    match chercher_ident(vs, vid) {
        Some(k) => {
            proof {
                let k2 = choose|k2: int| rang_ident(vs@, vid, k2);
                lemme_rang_unique(vs@, vid, k as int, k2);
            }
            assert(k < vs.len());
            k + 1
        },
        None => 0,
    }
}

/// Le contrat commence après le jour `t` (date ISO).
fn commence_apres(c: &Contrat, t: Date) -> (r: bool)
    ensures
        r == debute_apres(*c, t.jour as int),
{
    match date_iso(c.date_debut.as_str()) {
        Some(d) => d.jour > t.jour,
        None => false,
    }
}

impl App {
    /// Libellé et couleur du statut d'un contrat le jour `t`.
    pub fn statut_affiche_le(&self, c: &Contrat, t: Date) -> (r: (Rgb, String))
        ensures
            (r.0, r.1@) == statut_affiche(*c, t.jour as int, self.theme.attenue),
    {
        let actif = egal(c.statut.as_str(), "Actif");
        if actif && commence_apres(c, t) {
            (indigo(), String::from_str("Réservé"))
        } else if actif {
            (vert(), String::from_str("Actif"))
        } else if egal(c.statut.as_str(), "Terminé") {
            (self.theme.muted(), String::from_str("Terminé"))
        } else if egal(c.statut.as_str(), "Annulé") {
            (rouge_iam(), String::from_str("Annulé"))
        } else {
            (self.theme.muted(), c.statut.clone())
        }
    }

    /// Rangs des contrats du tableau de bord, les plus récents d'abord, selon
    /// le filtre choisi et le jour `t`.
    pub fn contrats_tableau_le(&self, t: Date) -> (r: Vec<usize>)
        ensures
            r@ == rangs_desc(self.contrats@, garde_tableau(self.tableau.filter, t.jour as int), 0),
    {
        let ghost p = garde_tableau(self.tableau.filter, t.jour as int);
        let f = self.tableau.filter;
        let mut r: Vec<usize> = Vec::new();
        let mut i: usize = self.contrats.len();
        while i > 0
            invariant
                i <= self.contrats.len(),
                p == garde_tableau(f, t.jour as int),
                f == self.tableau.filter,
                r@ == rangs_desc(self.contrats@, p, i as int),
            decreases i,
        {
            i = i - 1;
            let c = &self.contrats[i];
            let garde = if f == 1 {
                egal(c.statut.as_str(), "Actif") && {
                    match date_iso(c.date_debut.as_str()) {
                        Some(d) => d.jour <= t.jour,
                        None => true,
                    }
                }
            } else if f == 2 {
                egal(c.statut.as_str(), "Terminé")
            } else if f == 3 {
                egal(c.statut.as_str(), "Actif") && commence_apres(c, t)
            } else {
                true
            };
            assert(garde == p(self.contrats@[i as int]));
            if garde {
                r.push(i);
            }
        }
        r
    }

    /// Retours du jour `t` pas encore traités, dans l'ordre des contrats.
    pub fn retours_a_traiter_le(&self, t: Date) -> (r: Vec<Contrat>)
        ensures
            r@ == self.contrats@.filter(a_traiter(self.tableau.alerte_retour_ok@, t.jour as int)),
    {
        broadcast use vstd::std_specs::hash::group_hash_axioms;
        let ghost p = a_traiter(self.tableau.alerte_retour_ok@, t.jour as int);
        let mut r: Vec<Contrat> = Vec::new();
        let mut i: usize = 0;
        proof {
            lemme_filtre_vide(self.contrats@, p);
        }
        while i < self.contrats.len()
            invariant
                0 <= i <= self.contrats.len(),
                p == a_traiter(self.tableau.alerte_retour_ok@, t.jour as int),
                r@ == self.contrats@.take(i as int).filter(p),
            decreases self.contrats.len() - i,
        {
            proof {
                lemme_filtre_pas(self.contrats@, p, i as int);
            }
            let c = &self.contrats[i];
            if egal(c.statut.as_str(), "Actif") && !self.tableau.alerte_retour_ok.contains(&c.id) {
                match date_iso(c.date_fin.as_str()) {
                    Some(d) => {
                        if d.jour == t.jour {
                            r.push(c.copie());
                        }
                    },
                    None => {},
                }
            }
            i = i + 1;
        }
        assert(self.contrats@.take(self.contrats.len() as int) =~= self.contrats@);
        r
    }

    /// Nombre de voitures libres le jour `t` : le parc moins les voitures
    /// louées, sans descendre sous zéro.
    pub fn disponibles_le(&self, t: Date) -> (r: usize)
        ensures
            r == (if self.voitures@.len() >= loues_le_spec(self.contrats@, t.jour as int).len() {
                self.voitures@.len() - loues_le_spec(self.contrats@, t.jour as int).len()
            } else {
                0
            }),
    {
        let loues = self.loues_auj(t);
        self.voitures.len().saturating_sub(loues)
    }

    /// La voiture du contrat `cid` est rendue : le contrat passe « Terminé » et
    /// son retour est marqué traité.
    pub fn marquer_rendu(&mut self, cid: u64)
        ensures
            statut_change(old(self).contrats@, final(self).contrats@, cid, statut_termine()),
            final(self).tableau.alerte_retour_ok@ == old(self).tableau.alerte_retour_ok@.insert(cid),
            final(self).tableau.filter == old(self).tableau.filter,
            final(self).tableau.page == old(self).tableau.page,
            final(self).tableau.date_recherche == old(self).tableau.date_recherche,
            *final(self) == (App {
                contrats: final(self).contrats,
                tableau: final(self).tableau,
                ..*old(self)
            }),
    {
        broadcast use vstd::std_specs::hash::group_hash_axioms;
        self.changer_statut(cid, "Terminé");
        self.tableau.alerte_retour_ok.insert(cid);
    }

    /// Donne le statut `statut` au premier contrat d'identifiant `id`.
    fn changer_statut(&mut self, id: u64, statut: &str)
        ensures
            statut_change(old(self).contrats@, final(self).contrats@, id, statut@),
            *final(self) == (App { contrats: final(self).contrats, ..*old(self) }),
    {
        match chercher_ident(&self.contrats, id) {
            Some(k) => {
                let c = Contrat { statut: String::from_str(statut), ..self.contrats[k].copie() };
                self.contrats.set(k, c);
                proof {
                    assert forall|k2: int| rang_ident(old(self).contrats@, id, k2) implies k2 == k by {
                        lemme_rang_unique(old(self).contrats@, id, k2, k as int);
                    }
                }
            },
            None => {},
        }
    }

    /// Prépare le renouvellement du contrat `cid` : son retour est marqué
    /// traité et, s'il existe, le formulaire reprend la voiture, le client,
    /// l'agent, le tarif et les notes, à partir de sa date de fin, puis la
    /// page de saisie s'ouvre.
    pub fn renouveler(&mut self, cid: u64)
        ensures
            final(self).tableau.alerte_retour_ok@ == old(self).tableau.alerte_retour_ok@.insert(cid),
            final(self).tableau.filter == old(self).tableau.filter,
            final(self).tableau.page == old(self).tableau.page,
            final(self).tableau.date_recherche == old(self).tableau.date_recherche,
            absent(old(self).contrats@, cid) ==> *final(self) == (App {
                tableau: final(self).tableau,
                ..*old(self)
            }),
            forall|k: int|
                rang_ident(old(self).contrats@, cid, k) ==> {
                    &&& renouvellement(
                        final(self).formulaire,
                        old(self).formulaire,
                        old(self).contrats@[k],
                        old(self).voitures@,
                    )
                    &&& se_relit_en(final(self).formulaire.debut@, old(self).contrats@[k].date_fin@)
                    &&& final(self).onglet == Onglet::NouveauContrat
                    &&& final(self).onglet_prec == (if old(self).onglet != Onglet::NouveauContrat {
                        Some(old(self).onglet)
                    } else {
                        old(self).onglet_prec
                    })
                    &&& *final(self) == (App {
                        tableau: final(self).tableau,
                        formulaire: final(self).formulaire,
                        onglet: final(self).onglet,
                        onglet_prec: final(self).onglet_prec,
                        ..*old(self)
                    })
                },
    {
        broadcast use vstd::std_specs::hash::group_hash_axioms;
        self.tableau.alerte_retour_ok.insert(cid);
        match chercher_ident(&self.contrats, cid) {
            Some(k) => {
                let c = &self.contrats[k];
                let voiture = rang_voiture_de(&self.voitures, c.voiture_id);
                let client = c.client_nom.clone();
                let tel = c.client_tel.clone();
                let agent = c.agent.clone();
                let debut = afficher_date(c.date_fin.as_str());
                let tarif = texte_decimal(c.tarif_jour);
                let notes = c.notes.clone();
                self.formulaire.voiture = voiture;
                self.formulaire.client = client;
                self.formulaire.tel = tel;
                self.formulaire.agent = agent;
                self.formulaire.debut = debut;
                self.formulaire.fin = String::new();
                self.formulaire.tarif = tarif;
                self.formulaire.notes = notes;
                self.formulaire.montant_paye = String::from_str("0");
                self.formulaire.msg = String::new();
                self.formulaire.en_edition = None;
                self.naviguer(Onglet::NouveauContrat);
                proof {
                    assert forall|k2: int| rang_ident(old(self).contrats@, cid, k2) implies k2 == k by {
                        lemme_rang_unique(old(self).contrats@, cid, k2, k as int);
                    }
                }
            },
            None => {},
        }
    }
}

} // verus!
