//! L'état de l'application de gestion et les règles de l'agence : disponibilité
//! des voitures, activité du jour, chiffre d'affaires et navigation.
use vstd::prelude::*;
use std::collections::HashSet;
use crate::theme::{Rgb, Theme};
use crate::date::{Date, date_analysee, format_iso, date_iso, plus_jours, jour_valide, annee_mois,
    annee_et_mois};
use crate::modeles::{Voiture, Contrat, VoitureVente, Reparation, PeriodeCaisse, Encaissement,
    Decaissement, statut_actif, statut_annule, chevauche_spec, total_contrat, reste_contrat,
    nb_jours};
use crate::outils::{lemme_filtre_pas, lemme_filtre_vide, somme_bornee, valeurs, additionner};
use crate::texte::egal;

verus! {

/// Les pages de l'application.
#[derive(Clone, Copy, Debug, PartialEq, Eq, Structural)]
pub enum Onglet {
    Tableau,
    Disponibilite,
    NouveauContrat,
    Contrats,
    Voitures,
    Ventes,
    Maintenance,
    Impayes,
    Caisse,
}

/// Fenêtre de détail d'une voiture.
#[derive(Clone, Debug)]
pub struct ModalVoiture {
    pub visible: bool,
    pub voiture_id: u64,
    pub histo_recherche: String,
}

/// Fenêtre de détail d'un contrat.
#[derive(Clone, Copy, Debug)]
pub struct ModalContrat {
    pub visible: bool,
    pub contrat_id: u64,
}

/// Situation d'une voiture sur une période : couleur et libellé, pastilles et
/// lignes de détail.
#[derive(Clone, Debug)]
pub struct StatutVoiture {
    pub couleur: Rgb,
    pub libelle: String,
    pub badges: Vec<(String, Rgb)>,
    pub lignes: Vec<(String, Rgb)>,
}

/// Saisie d'un contrat (création ou modification).
#[derive(Clone, Debug)]
pub struct FormulaireContrat {
    pub numero: String,
    /// Voiture choisie : 0 pour aucune, sinon son rang dans le parc plus un.
    pub voiture: usize,
    pub voiture_note: String,
    pub voiture_search: String,
    pub client: String,
    pub tel: String,
    pub agent: String,
    pub debut: String,
    pub fin: String,
    pub heure_debut: String,
    pub heure_fin: String,
    pub km_dep: String,
    pub km_ret: String,
    pub tarif: String,
    pub notes: String,
    pub montant_paye: String,
    pub msg: String,
    pub ok: bool,
    /// Indice du contrat en cours de modification.
    pub en_edition: Option<usize>,
    pub car_error_cleared: bool,
}

/// Recherche de disponibilité.
#[derive(Clone, Debug)]
pub struct RechercheDispo {
    pub du: String,
    pub au: String,
    pub ids: Vec<u64>,
    pub fait: bool,
    pub erreur: String,
    pub recherche_modele: String,
    /// Par voiture trouvée : identifiant, modèle, libellé du statut, détail.
    pub modele_periode: Vec<(u64, String, String, String)>,
}

/// Filtres de la liste des contrats.
#[derive(Clone, Debug)]
pub struct ListeContrats {
    pub recherche: String,
    pub statut: usize,
    pub suppr: Option<usize>,
    pub page: usize,
    pub filter_mois: usize,
    pub filter_annee: String,
}

/// Saisie et modification d'une voiture du parc.
#[derive(Clone, Debug)]
pub struct FormulaireVoiture {
    pub modele: String,
    pub plaque: String,
    pub annee: String,
    pub cat: String,
    pub couleur: String,
    pub tarif: String,
    pub msg: String,
    pub ok: bool,
    pub recherche: String,
    pub page: usize,
    pub edit_id: Option<u64>,
    pub edit_modele: String,
    pub edit_plaque: String,
    pub edit_annee: String,
    pub edit_cat: String,
    pub edit_couleur: String,
    pub edit_tarif: String,
    pub edit_etat: String,
    pub suppr_confirm: Option<u64>,
}

/// Saisie des voitures à vendre.
#[derive(Clone, Debug)]
pub struct FormulaireVente {
    pub nom: String,
    pub plaque: String,
    pub chassis: String,
    pub immat: String,
    pub annee: String,
    pub prix_achat: String,
    pub prix_demande: String,
    pub notes: String,
    pub msg: String,
    pub ok: bool,
    pub recherche: String,
    pub page: usize,
    pub suppr_confirm: Option<u64>,
    pub marquer_vendu: Option<u64>,
    pub prix_vendu_input: String,
}

/// État du tableau de bord.
#[derive(Debug)]
pub struct Tableau {
    pub filter: usize,
    pub page: usize,
    /// Contrats dont le retour du jour a déjà été traité.
    pub alerte_retour_ok: HashSet<u64>,
    pub date_recherche: String,
}

/// Saisie des réparations.
#[derive(Clone, Debug)]
pub struct FormulaireReparation {
    pub voiture_idx: usize,
    pub date: String,
    pub description: String,
    pub prix: String,
    pub observation: String,
    pub msg: String,
    pub ok: bool,
    pub filtre_voiture: usize,
    pub recherche: String,
    pub suppr_confirm: Option<u64>,
}

/// Saisies de la caisse.
#[derive(Clone, Debug)]
pub struct FormulaireCaisse {
    pub periode_active: Option<u64>,
    pub suppr_periode: Option<u64>,
    pub creer_visible: bool,
    pub new_nom: String,
    pub new_debut: String,
    pub new_fin: String,
    pub new_msg: String,
    pub enc_client: String,
    pub enc_contrat: String,
    pub enc_voiture: String,
    pub enc_details: String,
    pub enc_montant: String,
    pub enc_date: String,
    pub enc_msg: String,
    pub dec_nom: String,
    pub dec_details: String,
    pub dec_montant: String,
    pub dec_date: String,
    pub dec_msg: String,
    pub enc_suppr: Option<u64>,
    pub dec_suppr: Option<u64>,
}

/// L'état complet de l'application.
pub struct App {
    pub onglet: Onglet,
    pub onglet_prec: Option<Onglet>,
    pub voitures: Vec<Voiture>,
    pub contrats: Vec<Contrat>,
    pub ventes: Vec<VoitureVente>,
    pub reparations: Vec<Reparation>,
    pub caisse_periodes: Vec<PeriodeCaisse>,
    pub caisse_encaissements: Vec<Encaissement>,
    pub caisse_decaissements: Vec<Decaissement>,
    pub formulaire: FormulaireContrat,
    pub dispo: RechercheDispo,
    pub liste: ListeContrats,
    pub form_voiture: FormulaireVoiture,
    pub form_vente: FormulaireVente,
    pub modal_voiture: ModalVoiture,
    pub modal_contrat: ModalContrat,
    pub tableau: Tableau,
    pub dark_mode: bool,
    pub theme: Theme,
    pub impaye_recherche: String,
    pub form_reparation: FormulaireReparation,
    pub caisse: FormulaireCaisse,
}

/// Plus grand identifiant d'une suite de contrats (zéro si elle est vide).
pub open spec fn max_id_contrats(s: Seq<Contrat>) -> nat
    decreases s.len(),
{
    if s.len() == 0 {
        0
    } else {
        let m = max_id_contrats(s.drop_last());
        if s.last().id > m {
            s.last().id as nat
        } else {
            m
        }
    }
}

/// Plus grand identifiant d'une suite de voitures (zéro si elle est vide).
pub open spec fn max_id_voitures(s: Seq<Voiture>) -> nat
    decreases s.len(),
{
    if s.len() == 0 {
        0
    } else {
        let m = max_id_voitures(s.drop_last());
        if s.last().id > m {
            s.last().id as nat
        } else {
            m
        }
    }
}

/// Le contrat est en statut « Actif ».
pub open spec fn est_actif(c: Contrat) -> bool {
    c.statut@ == statut_actif()
}

/// La voiture `vid` est libre sur la période : aucun contrat de cette voiture,
/// hormis celui dont l'identifiant est exclu, ne l'occupe sur la période.
pub open spec fn disponible(s: Seq<Contrat>, vid: u64, du: int, au: int, exclu: Option<u64>) -> bool {
    !exists|i: int|
        0 <= i < s.len() && !(exclu == Some(#[trigger] s[i].id)) && s[i].voiture_id == vid
            && chevauche_spec(s[i], du, au)
}

/// Contrats actifs qui occupent une voiture le jour `t`.
pub open spec fn loues_le_spec(s: Seq<Contrat>, t: int) -> Seq<Contrat> {
    s.filter(|c: Contrat| est_actif(c) && chevauche_spec(c, t, t))
}

/// Contrats actifs dont la date ISO de fin est le jour `j`.
pub open spec fn retours_le_spec(s: Seq<Contrat>, j: int) -> Seq<Contrat> {
    s.filter(|c: Contrat| est_actif(c) && date_analysee(c.date_fin@, format_iso()) == Some(j))
}

/// Contrats actifs dont la date ISO de début est le jour `j`.
pub open spec fn departs_le_spec(s: Seq<Contrat>, j: int) -> Seq<Contrat> {
    s.filter(|c: Contrat| est_actif(c) && date_analysee(c.date_debut@, format_iso()) == Some(j))
}

/// Contrats qui ne sont pas annulés.
pub open spec fn non_annules(s: Seq<Contrat>) -> Seq<Contrat> {
    s.filter(|c: Contrat| c.statut@ != statut_annule())
}

/// Contrats non annulés commencés l'année `a`, mois `m`.
pub open spec fn du_mois(s: Seq<Contrat>, a: int, m: int) -> Seq<Contrat> {
    s.filter(
        |c: Contrat|
            c.statut@ != statut_annule() && match date_analysee(c.date_debut@, format_iso()) {
                Some(d) => annee_mois(d) == (a, m),
                None => false,
            },
    )
}

/// Totaux des contrats d'une suite.
pub open spec fn totaux(s: Seq<Contrat>) -> Seq<int> {
    s.map_values(|c: Contrat| total_contrat(c))
}

/// Premier contrat portant l'identifiant `id`.
pub open spec fn premier_contrat_id(s: Seq<Contrat>, id: u64, k: int) -> bool {
    0 <= k < s.len() && s[k].id == id && forall|j: int| 0 <= j < k ==> s[j].id != id
}

/// Première voiture portant l'identifiant `id`.
pub open spec fn premiere_voiture_id(s: Seq<Voiture>, id: u64, k: int) -> bool {
    0 <= k < s.len() && s[k].id == id && forall|j: int| 0 <= j < k ==> s[j].id != id
}

/// Contrat actif de la voiture `vid` qui l'occupe le jour `t`.
pub open spec fn actif_pour_voiture(c: Contrat, vid: u64, t: int) -> bool {
    c.voiture_id == vid && est_actif(c) && chevauche_spec(c, t, t)
}

/// La liste du lendemain du jour `t` : `attendue` si ce lendemain est une date
/// de `chrono`, vide sinon.
pub open spec fn lendemain(t: int, r: Seq<Contrat>, attendue: Seq<Contrat>) -> bool {
    if jour_valide(t + 1) {
        r == attendue
    } else {
        r.len() == 0
    }
}

/// Le contrat désigné par une référence optionnelle.
pub open spec fn contrat_vu(r: Option<&Contrat>) -> Option<Contrat> {
    match r {
        Some(c) => Some(*c),
        None => None,
    }
}

/// Le premier contrat actif de la voiture `vid` qui l'occupe le jour `t`, ou
/// aucun s'il n'y en a pas.
pub open spec fn actif_trouve(s: Seq<Contrat>, vid: u64, t: int, r: Option<Contrat>) -> bool {
    match r {
        Some(c) => exists|k: int|
            0 <= k < s.len() && c == s[k] && actif_pour_voiture(s[k], vid, t) && forall|j: int|
                0 <= j < k ==> !actif_pour_voiture(s[j], vid, t),
        None => forall|k: int| 0 <= k < s.len() ==> !actif_pour_voiture(s[k], vid, t),
    }
}

impl App {
    /// Identifiant du prochain contrat : le plus grand identifiant plus un.
    pub fn prochain_id_contrat(&self) -> (r: u64)
        requires
            max_id_contrats(self.contrats@) < u64::MAX,
        ensures
            r == max_id_contrats(self.contrats@) + 1,
    {
        let mut m: u64 = 0;
        let mut i: usize = 0;
        while i < self.contrats.len()
            invariant
                0 <= i <= self.contrats.len(),
                m == max_id_contrats(self.contrats@.take(i as int)),
            decreases self.contrats.len() - i,
        {
            assert(self.contrats@.take(i + 1).drop_last() =~= self.contrats@.take(i as int));
            if self.contrats[i].id > m {
                m = self.contrats[i].id;
            }
            i = i + 1;
        }
        assert(self.contrats@.take(self.contrats.len() as int) =~= self.contrats@);
        m + 1
    }

    /// Identifiant de la prochaine voiture : le plus grand identifiant plus un.
    pub fn prochain_id_voiture(&self) -> (r: u64)
        requires
            max_id_voitures(self.voitures@) < u64::MAX,
        ensures
            r == max_id_voitures(self.voitures@) + 1,
    {
        let mut m: u64 = 0;
        let mut i: usize = 0;
        while i < self.voitures.len()
            invariant
                0 <= i <= self.voitures.len(),
                m == max_id_voitures(self.voitures@.take(i as int)),
            decreases self.voitures.len() - i,
        {
            assert(self.voitures@.take(i + 1).drop_last() =~= self.voitures@.take(i as int));
            if self.voitures[i].id > m {
                m = self.voitures[i].id;
            }
            i = i + 1;
        }
        assert(self.voitures@.take(self.voitures.len() as int) =~= self.voitures@);
        m + 1
    }

    /// La voiture `vid` est-elle libre de `du` à `au`, en ignorant le contrat
    /// d'identifiant `exclude_contrat_id` ?
    pub fn est_disponible(&self, vid: u64, du: Date, au: Date, exclude_contrat_id: Option<u64>) -> (r:
        bool)
        ensures
            r == disponible(self.contrats@, vid, du.jour as int, au.jour as int, exclude_contrat_id),
    {
        let mut i: usize = 0;
        while i < self.contrats.len()
            invariant
                0 <= i <= self.contrats.len(),
                forall|k: int|
                    0 <= k < i ==> !(!(exclude_contrat_id == Some(#[trigger] self.contrats@[k].id))
                        && self.contrats@[k].voiture_id == vid && chevauche_spec(
                        self.contrats@[k],
                        du.jour as int,
                        au.jour as int,
                    )),
            decreases self.contrats.len() - i,
        {
            let c = &self.contrats[i];
            let exclu = match exclude_contrat_id {
                Some(e) => c.id == e,
                None => false,
            };
            if !exclu && c.voiture_id == vid && c.chevauche(du, au) {
                assert(!(exclude_contrat_id == Some(self.contrats@[i as int].id)));
                return false;
            }
            i = i + 1;
        }
        true
    }

    /// Nombre de contrats actifs qui occupent une voiture le jour `t`.
    pub fn loues_auj(&self, t: Date) -> (r: usize)
        ensures
            r == loues_le_spec(self.contrats@, t.jour as int).len(),
    {
        let ghost p = |c: Contrat| est_actif(c) && chevauche_spec(c, t.jour as int, t.jour as int);
        let mut n: usize = 0;
        let mut i: usize = 0;
        proof {
            lemme_filtre_vide(self.contrats@, p);
        }
        while i < self.contrats.len()
            invariant
                0 <= i <= self.contrats.len(),
                n == self.contrats@.take(i as int).filter(p).len(),
                n <= i,
                p == (|c: Contrat| est_actif(c) && chevauche_spec(c, t.jour as int, t.jour as int)),
            decreases self.contrats.len() - i,
        {
            proof {
                lemme_filtre_pas(self.contrats@, p, i as int);
            }
            let c = &self.contrats[i];
            if egal(c.statut.as_str(), "Actif") && c.chevauche(t, t) {
                n = n + 1;
            }
            i = i + 1;
        }
        assert(self.contrats@.take(self.contrats.len() as int) =~= self.contrats@);
        n
    }

    /// Contrats actifs qui se terminent le jour `j`.
    pub fn retours_le(&self, j: Date) -> (r: Vec<Contrat>)
        ensures
            r@ == retours_le_spec(self.contrats@, j.jour as int),
    {
        let ghost p = |c: Contrat|
            est_actif(c) && date_analysee(c.date_fin@, format_iso()) == Some(j.jour as int);
        let mut r: Vec<Contrat> = Vec::new();
        let mut i: usize = 0;
        proof {
            lemme_filtre_vide(self.contrats@, p);
        }
        while i < self.contrats.len()
            invariant
                0 <= i <= self.contrats.len(),
                r@ == self.contrats@.take(i as int).filter(p),
                p == (|c: Contrat|
                    est_actif(c) && date_analysee(c.date_fin@, format_iso()) == Some(j.jour as int)),
            decreases self.contrats.len() - i,
        {
            proof {
                lemme_filtre_pas(self.contrats@, p, i as int);
            }
            let c = &self.contrats[i];
            if egal(c.statut.as_str(), "Actif") {
                match date_iso(c.date_fin.as_str()) {
                    Some(d) => {
                        if d.jour == j.jour {
                            r.push(c.copie());
                        }
                    },
                    None => {},
                }
            }
            i = i + 1;
        }
        assert(self.contrats@.take(self.contrats.len() as int) =~= self.contrats@);
        r
    }

    /// Contrats actifs qui commencent le jour `j`.
    pub fn departs_le(&self, j: Date) -> (r: Vec<Contrat>)
        ensures
            r@ == departs_le_spec(self.contrats@, j.jour as int),
    {
        let ghost p = |c: Contrat|
            est_actif(c) && date_analysee(c.date_debut@, format_iso()) == Some(j.jour as int);
        let mut r: Vec<Contrat> = Vec::new();
        let mut i: usize = 0;
        proof {
            lemme_filtre_vide(self.contrats@, p);
        }
        while i < self.contrats.len()
            invariant
                0 <= i <= self.contrats.len(),
                r@ == self.contrats@.take(i as int).filter(p),
                p == (|c: Contrat|
                    est_actif(c) && date_analysee(c.date_debut@, format_iso()) == Some(
                        j.jour as int,
                    )),
            decreases self.contrats.len() - i,
        {
            proof {
                lemme_filtre_pas(self.contrats@, p, i as int);
            }
            let c = &self.contrats[i];
            if egal(c.statut.as_str(), "Actif") {
                match date_iso(c.date_debut.as_str()) {
                    Some(d) => {
                        if d.jour == j.jour {
                            r.push(c.copie());
                        }
                    },
                    None => {},
                }
            }
            i = i + 1;
        }
        assert(self.contrats@.take(self.contrats.len() as int) =~= self.contrats@);
        r
    }

    /// Contrats actifs qui se terminent le lendemain du jour `t` ; aucun si
    /// ce lendemain sort du calendrier de `chrono`.
    pub fn retours_demain(&self, t: Date) -> (r: Vec<Contrat>)
        ensures
            lendemain(t.jour as int, r@, retours_le_spec(self.contrats@, t.jour + 1)),
    {
        match plus_jours(t, 1) {
            Some(d) => {
                let r = self.retours_le(d);
                assert(lendemain(t.jour as int, r@, retours_le_spec(self.contrats@, t.jour + 1)));
                r
            },
            None => {
                let r = Vec::new();
                assert(lendemain(t.jour as int, r@, retours_le_spec(self.contrats@, t.jour + 1)));
                r
            },
        }
    }

    /// Contrats actifs qui commencent le lendemain du jour `t` ; aucun si ce
    /// lendemain sort du calendrier de `chrono`.
    pub fn departs_demain(&self, t: Date) -> (r: Vec<Contrat>)
        ensures
            lendemain(t.jour as int, r@, departs_le_spec(self.contrats@, t.jour + 1)),
    {
        match plus_jours(t, 1) {
            Some(d) => {
                let r = self.departs_le(d);
                assert(lendemain(t.jour as int, r@, departs_le_spec(self.contrats@, t.jour + 1)));
                r
            },
            None => {
                let r = Vec::new();
                assert(lendemain(t.jour as int, r@, departs_le_spec(self.contrats@, t.jour + 1)));
                r
            },
        }
    }

    /// Chiffre d'affaires, en centimes, des contrats non annulés commencés le
    /// même mois que `t` ; `None` si le calcul sort des entiers sur 128 bits.
    pub fn ca_mois(&self, t: Date) -> (r: Option<i128>)
        requires
            jour_valide(t.jour as int),
        ensures
            ({
                let (a, m) = annee_mois(t.jour as int);
                valeur_opt(r) == somme_bornee(totaux(du_mois(self.contrats@, a, m)))
            }),
    {
        let (a, m) = annee_et_mois(t);
        let ghost p = |c: Contrat|
            c.statut@ != statut_annule() && match date_analysee(c.date_debut@, format_iso()) {
                Some(d) => annee_mois(d) == (a as int, m as int),
                None => false,
            };
        let mut v: Vec<i128> = Vec::new();
        let mut i: usize = 0;
        proof {
            lemme_filtre_vide(self.contrats@, p);
            assert(valeurs(v@) =~= totaux(self.contrats@.take(0).filter(p)));
        }
        while i < self.contrats.len()
            invariant
                0 <= i <= self.contrats.len(),
                valeurs(v@) == totaux(self.contrats@.take(i as int).filter(p)),
                p == (|c: Contrat|
                    c.statut@ != statut_annule() && match date_analysee(
                        c.date_debut@,
                        format_iso(),
                    ) {
                        Some(d) => annee_mois(d) == (a as int, m as int),
                        None => false,
                    }),
            decreases self.contrats.len() - i,
        {
            proof {
                lemme_filtre_pas(self.contrats@, p, i as int);
            }
            let c = &self.contrats[i];
            if !egal(c.statut.as_str(), "Annulé") {
                match date_iso(c.date_debut.as_str()) {
                    Some(d) => {
                        let (a2, m2) = annee_et_mois(d);
                        if a2 == a && m2 == m {
                            let ghost avant = v@;
                            v.push(c.total());
                            proof {
                                assert(valeurs(v@) =~= valeurs(avant).push(total_contrat(*c)));
                                assert(totaux(self.contrats@.take(i as int).filter(p).push(*c))
                                    =~= totaux(self.contrats@.take(i as int).filter(p)).push(
                                    total_contrat(*c),
                                ));
                            }
                        }
                    },
                    None => {},
                }
            }
            i = i + 1;
        }
        assert(self.contrats@.take(self.contrats.len() as int) =~= self.contrats@);
        additionner(&v)
    }

    /// Chiffre d'affaires total, en centimes, des contrats non annulés ;
    /// `None` si le calcul sort des entiers sur 128 bits.
    pub fn ca_total(&self) -> (r: Option<i128>)
        ensures
            valeur_opt(r) == somme_bornee(totaux(non_annules(self.contrats@))),
    {
        let ghost p = |c: Contrat| c.statut@ != statut_annule();
        let mut v: Vec<i128> = Vec::new();
        let mut i: usize = 0;
        proof {
            lemme_filtre_vide(self.contrats@, p);
            assert(valeurs(v@) =~= totaux(self.contrats@.take(0).filter(p)));
        }
        while i < self.contrats.len()
            invariant
                0 <= i <= self.contrats.len(),
                valeurs(v@) == totaux(self.contrats@.take(i as int).filter(p)),
                p == (|c: Contrat| c.statut@ != statut_annule()),
            decreases self.contrats.len() - i,
        {
            proof {
                lemme_filtre_pas(self.contrats@, p, i as int);
            }
            let c = &self.contrats[i];
            if !egal(c.statut.as_str(), "Annulé") {
                let ghost avant = v@;
                v.push(c.total());
                proof {
                    assert(valeurs(v@) =~= valeurs(avant).push(total_contrat(*c)));
                    assert(totaux(self.contrats@.take(i as int).filter(p).push(*c)) =~= totaux(
                        self.contrats@.take(i as int).filter(p),
                    ).push(total_contrat(*c)));
                }
            }
            i = i + 1;
        }
        assert(self.contrats@.take(self.contrats.len() as int) =~= self.contrats@);
        additionner(&v)
    }

    /// Va vers une page en retenant la page quittée (pour le retour).
    pub fn naviguer(&mut self, dest: Onglet)
        ensures
            *final(self) == navigation(*old(self), dest),
    {
        if self.onglet != dest {
            self.onglet_prec = Some(self.onglet);
            self.onglet = dest;
        }
    }

    /// Va vers une page depuis le menu : l'historique de retour est effacé.
    pub fn nav_menu(&mut self, dest: Onglet)
        ensures
            *final(self) == (App { onglet: dest, onglet_prec: None, ..*old(self) }),
    {
        self.onglet = dest;
        self.onglet_prec = None;
    }

    /// Premier contrat d'identifiant `id`.
    pub fn contrat_par_id(&self, id: u64) -> (r: Option<&Contrat>)
        ensures
            match r {
                Some(c) => exists|k: int| premier_contrat_id(self.contrats@, id, k) && *c == self.contrats@[k],
                None => forall|k: int| 0 <= k < self.contrats@.len() ==> self.contrats@[k].id != id,
            },
    {
        let mut i: usize = 0;
        while i < self.contrats.len()
            invariant
                0 <= i <= self.contrats.len(),
                forall|k: int| 0 <= k < i ==> self.contrats@[k].id != id,
            decreases self.contrats.len() - i,
        {
            if self.contrats[i].id == id {
                assert(premier_contrat_id(self.contrats@, id, i as int));
                return Some(&self.contrats[i]);
            }
            i = i + 1;
        }
        None
    }

    /// Première voiture d'identifiant `id`.
    pub fn voiture_par_id(&self, id: u64) -> (r: Option<&Voiture>)
        ensures
            match r {
                Some(v) => exists|k: int| premiere_voiture_id(self.voitures@, id, k) && *v == self.voitures@[k],
                None => forall|k: int| 0 <= k < self.voitures@.len() ==> self.voitures@[k].id != id,
            },
    {
        let mut i: usize = 0;
        while i < self.voitures.len()
            invariant
                0 <= i <= self.voitures.len(),
                forall|k: int| 0 <= k < i ==> self.voitures@[k].id != id,
            decreases self.voitures.len() - i,
        {
            if self.voitures[i].id == id {
                assert(premiere_voiture_id(self.voitures@, id, i as int));
                return Some(&self.voitures[i]);
            }
            i = i + 1;
        }
        None
    }

    /// Premier contrat actif de la voiture `vid` qui l'occupe le jour `t`.
    pub fn contrat_actif_pour_voiture(&self, vid: u64, t: Date) -> (r: Option<&Contrat>)
        ensures
            actif_trouve(self.contrats@, vid, t.jour as int, contrat_vu(r)),
    {
        let mut i: usize = 0;
        while i < self.contrats.len()
            invariant
                0 <= i <= self.contrats.len(),
                forall|k: int|
                    0 <= k < i ==> !actif_pour_voiture(self.contrats@[k], vid, t.jour as int),
            decreases self.contrats.len() - i,
        {
            let c = &self.contrats[i];
            if c.voiture_id == vid && egal(c.statut.as_str(), "Actif") && c.chevauche(t, t) {
                return Some(c);
            }
            i = i + 1;
        }
        None
    }

}

/// L'application après être allée vers la page `dest` : la page quittée est
/// retenue pour le retour ; rien ne change si l'on y est déjà.
pub open spec fn navigation(a: App, dest: Onglet) -> App {
    if a.onglet != dest {
        App { onglet: dest, onglet_prec: Some(a.onglet), ..a }
    } else {
        a
    }
}

/// Valeur d'un résultat optionnel sur 128 bits.
pub open spec fn valeur_opt(r: Option<i128>) -> Option<int> {
    match r {
        Some(x) => Some(x as int),
        None => None,
    }
}

} // verus!
