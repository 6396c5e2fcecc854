//! Démarrage de l'application à partir des données relues, relecture pendant
//! la recherche de disponibilité, et noms des fichiers de données.
use vstd::prelude::*;
use vstd::string::*;
use std::collections::HashSet;
use crate::theme::{Theme, palette_sombre};
use crate::date::{Date, date_saisie, date_ecrite, format_jma, jour_valide, annee_mois, annee_et_mois, parse_date, texte_jma, dans_7j, texte_dans_7j};
use crate::modeles::{Voiture, Contrat, VoitureVente, Reparation, PeriodeCaisse, Encaissement,
    Decaissement};
use crate::nombre::{ecriture_entier, entier_en_texte};
use crate::texte::{est_blanc, est_blanc_texte, cle_texte};
use crate::agence::{App, Onglet, ModalVoiture, ModalContrat, RechercheDispo, ListeContrats,
    FormulaireVoiture, FormulaireVente, Tableau, FormulaireReparation, FormulaireCaisse};
use crate::formulaire::{formulaire_vide, nouveau_formulaire};
use crate::parc::{parc_defaut, voitures_defaut};
use crate::dispo::{ids_libres, modele_affiche, resultats_modele};

verus! {

/// Nom du fichier des voitures du parc.
pub fn cars_file() -> (r: String)
    ensures
        r@ == "voitures.csv"@,
{
    String::from_str("voitures.csv")
}

/// Nom du fichier des contrats.
pub fn rentals_file() -> (r: String)
    ensures
        r@ == "contrats.csv"@,
{
    String::from_str("contrats.csv")
}

/// Nom du fichier des voitures à vendre.
pub fn ventes_file() -> (r: String)
    ensures
        r@ == "ventes_voitures.csv"@,
{
    String::from_str("ventes_voitures.csv")
}

/// Nom du fichier des réparations.
pub fn reparations_file() -> (r: String)
    ensures
        r@ == "reparations.csv"@,
{
    String::from_str("reparations.csv")
}

/// Nom du fichier des périodes de caisse.
pub fn periodes_file() -> (r: String)
    ensures
        r@ == "caisse_periodes.csv"@,
{
    String::from_str("caisse_periodes.csv")
}

/// Nom du fichier des encaissements.
pub fn encaissements_file() -> (r: String)
    ensures
        r@ == "caisse_encaissements.csv"@,
{
    String::from_str("caisse_encaissements.csv")
}

/// Nom du fichier des décaissements.
pub fn decaissements_file() -> (r: String)
    ensures
        r@ == "caisse_decaissements.csv"@,
{
    String::from_str("caisse_decaissements.csv")
}

/// Les données relues au démarrage.
pub struct Donnees {
    pub voitures: Vec<Voiture>,
    pub contrats: Vec<Contrat>,
    pub ventes: Vec<VoitureVente>,
    pub reparations: Vec<Reparation>,
    pub caisse_periodes: Vec<PeriodeCaisse>,
    pub caisse_encaissements: Vec<Encaissement>,
    pub caisse_decaissements: Vec<Decaissement>,
}

/// La voiture `b` est la voiture `a` dont l'état manquant devient « Bon état » :
/// un état vide, ou seulement blanc si `blanc` est vrai.
pub open spec fn etat_complete(a: Voiture, b: Voiture, blanc: bool) -> bool {
    let manque = if blanc {
        est_blanc(a.etat@)
    } else {
        a.etat@.len() == 0
    };
    &&& b == (Voiture { etat: b.etat, ..a })
    &&& b.etat@ == (if manque {
        "Bon état"@
    } else {
        a.etat@
    })
}

/// Le parc `b` est le parc `a` dont les états manquants sont complétés.
pub open spec fn parc_complete(a: Seq<Voiture>, b: Seq<Voiture>, blanc: bool) -> bool {
    &&& a.len() == b.len()
    &&& forall|k: int| 0 <= k < a.len() ==> etat_complete(a[k], #[trigger] b[k], blanc)
}

/// Complète les états manquants du parc.
fn completer_etats(v: &Vec<Voiture>, blanc: bool) -> (r: Vec<Voiture>)
    ensures
        parc_complete(v@, r@, blanc),
{
    let mut r: Vec<Voiture> = Vec::new();
    let mut i: usize = 0;
    while i < v.len()
        invariant
            0 <= i <= v.len(),
            r@.len() == i,
            forall|k: int| 0 <= k < i ==> etat_complete(v@[k], #[trigger] r@[k], blanc),
        decreases v.len() - i,
    {
        let mut x = v[i].copie();
        let manque = if blanc {
            est_blanc_texte(x.etat.as_str())
        } else {
            x.etat.as_str().unicode_len() == 0
        };
        if manque {
            x.etat = String::from_str("Bon état");
        }
        r.push(x);
        i = i + 1;
    }
    r
}

/// Recherche de disponibilité de départ, pour le jour `t`.
pub open spec fn dispo_initiale(d: RechercheDispo, t: int) -> bool {
    &&& d.du@ == date_ecrite(t, format_jma())
    &&& d.au@ == texte_dans_7j(t)
    &&& d.ids@.len() == 0
    &&& !d.fait
    &&& d.erreur@.len() == 0
    &&& d.recherche_modele@.len() == 0
    &&& d.modele_periode@.len() == 0
}

/// Filtres de départ de la liste des contrats.
pub open spec fn liste_initiale(l: ListeContrats) -> bool {
    &&& l.recherche@.len() == 0
    &&& l.statut == 0
    &&& l.suppr is None
    &&& l.page == 0
    &&& l.filter_mois == 0
    &&& l.filter_annee@.len() == 0
}

/// Formulaire des voitures de départ ; `annee` est l'année en cours écrite.
pub open spec fn form_voiture_initial(f: FormulaireVoiture, annee: Seq<char>) -> bool {
    &&& f.modele@.len() == 0
    &&& f.plaque@.len() == 0
    &&& f.annee@ == annee
    &&& f.cat@ == "Berline"@
    &&& f.couleur@.len() == 0
    &&& f.tarif@ == "3000"@
    &&& f.msg@.len() == 0
    &&& !f.ok
    &&& f.recherche@.len() == 0
    &&& f.page == 0
    &&& f.edit_id is None
    &&& f.edit_modele@.len() == 0
    &&& f.edit_plaque@.len() == 0
    &&& f.edit_annee@.len() == 0
    &&& f.edit_cat@.len() == 0
    &&& f.edit_couleur@.len() == 0
    &&& f.edit_tarif@.len() == 0
    &&& f.edit_etat@.len() == 0
    &&& f.suppr_confirm is None
}

/// Formulaire des ventes de départ ; `annee` est l'année en cours écrite.
pub open spec fn form_vente_initial(f: FormulaireVente, annee: Seq<char>) -> bool {
    &&& f.nom@.len() == 0
    &&& f.plaque@.len() == 0
    &&& f.chassis@.len() == 0
    &&& f.immat@.len() == 0
    &&& f.annee@ == annee
    &&& f.prix_achat@.len() == 0
    &&& f.prix_demande@.len() == 0
    &&& f.notes@.len() == 0
    &&& f.msg@.len() == 0
    &&& !f.ok
    &&& f.recherche@.len() == 0
    &&& f.page == 0
    &&& f.suppr_confirm is None
    &&& f.marquer_vendu is None
    &&& f.prix_vendu_input@.len() == 0
}

/// Tableau de bord de départ.
pub open spec fn tableau_initial(tb: Tableau) -> bool {
    &&& tb.filter == 0
    &&& tb.page == 0
    &&& tb.alerte_retour_ok@ == Set::<u64>::empty()
    &&& tb.date_recherche@.len() == 0
}

/// Formulaire des réparations de départ, pour le jour `t`.
pub open spec fn form_reparation_initial(f: FormulaireReparation, t: int) -> bool {
    &&& f.voiture_idx == 0
    &&& f.date@ == date_ecrite(t, format_jma())
    &&& f.description@.len() == 0
    &&& f.prix@.len() == 0
    &&& f.observation@.len() == 0
    &&& f.msg@.len() == 0
    &&& !f.ok
    &&& f.filtre_voiture == 0
    &&& f.recherche@.len() == 0
    &&& f.suppr_confirm is None
}

/// Saisies de caisse de départ, pour le jour `t`.
pub open spec fn caisse_initiale(c: FormulaireCaisse, t: int) -> bool {
    &&& c.periode_active is None
    &&& c.suppr_periode is None
    &&& !c.creer_visible
    &&& c.new_nom@.len() == 0
    &&& c.new_debut@ == date_ecrite(t, format_jma())
    &&& c.new_fin@ == texte_dans_7j(t)
    &&& c.new_msg@.len() == 0
    &&& c.enc_client@.len() == 0
    &&& c.enc_contrat@.len() == 0
    &&& c.enc_voiture@.len() == 0
    &&& c.enc_details@.len() == 0
    &&& c.enc_montant@.len() == 0
    &&& c.enc_date@ == date_ecrite(t, format_jma())
    &&& c.enc_msg@.len() == 0
    &&& c.dec_nom@.len() == 0
    &&& c.dec_details@.len() == 0
    &&& c.dec_montant@.len() == 0
    &&& c.dec_date@ == date_ecrite(t, format_jma())
    &&& c.dec_msg@.len() == 0
    &&& c.enc_suppr is None
    &&& c.dec_suppr is None
}

/// L'état de départ de l'application le jour `t`, à partir des données relues :
/// le parc par défaut s'il n'y a aucune voiture, sinon le parc relu dont les
/// états vides deviennent « Bon état ».
pub open spec fn etat_initial(a: App, d: Donnees, t: int) -> bool {
    let annee = ecriture_entier(annee_mois(t).0);
    &&& a.onglet == Onglet::Tableau
    &&& a.onglet_prec is None
    &&& if d.voitures@.len() == 0 {
        parc_defaut(a.voitures@)
    } else {
        parc_complete(d.voitures@, a.voitures@, false)
    }
    &&& a.contrats@ == d.contrats@
    &&& a.ventes@ == d.ventes@
    &&& a.reparations@ == d.reparations@
    &&& a.caisse_periodes@ == d.caisse_periodes@
    &&& a.caisse_encaissements@ == d.caisse_encaissements@
    &&& a.caisse_decaissements@ == d.caisse_decaissements@
    &&& formulaire_vide(a.formulaire, Seq::<char>::empty(), t)
    &&& dispo_initiale(a.dispo, t)
    &&& liste_initiale(a.liste)
    &&& form_voiture_initial(a.form_voiture, annee)
    &&& form_vente_initial(a.form_vente, annee)
    &&& !a.modal_voiture.visible && a.modal_voiture.voiture_id == 0
        && a.modal_voiture.histo_recherche@.len() == 0
    &&& !a.modal_contrat.visible && a.modal_contrat.contrat_id == 0
    &&& tableau_initial(a.tableau)
    &&& !a.dark_mode
    &&& a.theme == palette_sombre()
    &&& a.impaye_recherche@.len() == 0
    &&& form_reparation_initial(a.form_reparation, t)
    &&& caisse_initiale(a.caisse, t)
}

fn dispo_de_depart(t: Date) -> (d: RechercheDispo)
    requires
        jour_valide(t.jour as int),
    ensures
        dispo_initiale(d, t.jour as int),
{
    RechercheDispo {
        du: texte_jma(t),
        au: dans_7j(t),
        ids: Vec::new(),
        fait: false,
        erreur: String::new(),
        recherche_modele: String::new(),
        modele_periode: Vec::new(),
    }
}

fn liste_de_depart() -> (l: ListeContrats)
    ensures
        liste_initiale(l),
{
    ListeContrats {
        recherche: String::new(),
        statut: 0,
        suppr: None,
        page: 0,
        filter_mois: 0,
        filter_annee: String::new(),
    }
}

fn form_voiture_de_depart(annee: String) -> (f: FormulaireVoiture)
    ensures
        form_voiture_initial(f, annee@),
{
    FormulaireVoiture {
        modele: String::new(),
        plaque: String::new(),
        annee,
        cat: String::from_str("Berline"),
        couleur: String::new(),
        tarif: String::from_str("3000"),
        msg: String::new(),
        ok: false,
        recherche: String::new(),
        page: 0,
        edit_id: None,
        edit_modele: String::new(),
        edit_plaque: String::new(),
        edit_annee: String::new(),
        edit_cat: String::new(),
        edit_couleur: String::new(),
        edit_tarif: String::new(),
        edit_etat: String::new(),
        suppr_confirm: None,
    }
}

fn form_vente_de_depart(annee: String) -> (f: FormulaireVente)
    ensures
        form_vente_initial(f, annee@),
{
    FormulaireVente {
        nom: String::new(),
        plaque: String::new(),
        chassis: String::new(),
        immat: String::new(),
        annee,
        prix_achat: String::new(),
        prix_demande: String::new(),
        notes: String::new(),
        msg: String::new(),
        ok: false,
        recherche: String::new(),
        page: 0,
        suppr_confirm: None,
        marquer_vendu: None,
        prix_vendu_input: String::new(),
    }
}

fn form_reparation_de_depart(t: Date) -> (f: FormulaireReparation)
    requires
        jour_valide(t.jour as int),
    ensures
        form_reparation_initial(f, t.jour as int),
{
    FormulaireReparation {
        voiture_idx: 0,
        date: texte_jma(t),
        description: String::new(),
        prix: String::new(),
        observation: String::new(),
        msg: String::new(),
        ok: false,
        filtre_voiture: 0,
        recherche: String::new(),
        suppr_confirm: None,
    }
}

fn caisse_de_depart(t: Date) -> (c: FormulaireCaisse)
    requires
        jour_valide(t.jour as int),
    ensures
        caisse_initiale(c, t.jour as int),
{
    FormulaireCaisse {
        periode_active: None,
        suppr_periode: None,
        creer_visible: false,
        new_nom: String::new(),
        new_debut: texte_jma(t),
        new_fin: dans_7j(t),
        new_msg: String::new(),
        enc_client: String::new(),
        enc_contrat: String::new(),
        enc_voiture: String::new(),
        enc_details: String::new(),
        enc_montant: String::new(),
        enc_date: texte_jma(t),
        enc_msg: String::new(),
        dec_nom: String::new(),
        dec_details: String::new(),
        dec_montant: String::new(),
        dec_date: texte_jma(t),
        dec_msg: String::new(),
        enc_suppr: None,
        dec_suppr: None,
    }
}

impl App {
    /// L'application au démarrage le jour `t`, à partir des données relues ; le
    /// booléen dit si le parc par défaut a été installé et doit être enregistré.
    pub fn new(d: Donnees, t: Date) -> (r: (App, bool))
        requires
            jour_valide(t.jour as int),
        ensures
            etat_initial(r.0, d, t.jour as int),
            r.1 == (d.voitures@.len() == 0),
    {
        let ghost d0 = d;
        let Donnees {
            voitures,
            contrats,
            ventes,
            reparations,
            caisse_periodes,
            caisse_encaissements,
            caisse_decaissements,
        } = d;
        let defaut = voitures.len() == 0;
        let parc = if defaut {
            voitures_defaut()
        } else {
            completer_etats(&voitures, false)
        };
        let (annee, _mois) = annee_et_mois(t);
        let texte_annee = entier_en_texte(annee as i128);
        let a = App {
            onglet: Onglet::Tableau,
            onglet_prec: None,
            voitures: parc,
            contrats,
            ventes,
            reparations,
            caisse_periodes,
            caisse_encaissements,
            caisse_decaissements,
            formulaire: nouveau_formulaire(t),
            dispo: dispo_de_depart(t),
            liste: liste_de_depart(),
            form_voiture: form_voiture_de_depart(texte_annee.clone()),
            form_vente: form_vente_de_depart(texte_annee),
            modal_voiture: ModalVoiture { visible: false, voiture_id: 0, histo_recherche: String::new() },
            modal_contrat: ModalContrat { visible: false, contrat_id: 0 },
            tableau: Tableau {
                filter: 0,
                page: 0,
                alerte_retour_ok: HashSet::new(),
                date_recherche: String::new(),
            },
            dark_mode: false,
            theme: Theme::initial(),
            impaye_recherche: String::new(),
            form_reparation: form_reparation_de_depart(t),
            caisse: caisse_de_depart(t),
        };
        (a, defaut)
    }

    /// Remet la recherche de disponibilité à jour après relecture du parc et
    /// des contrats, le jour `t`. Le parc par défaut est installé s'il est vide
    /// (le booléen rendu dit alors qu'il faut l'enregistrer), les états blancs
    /// deviennent « Bon état », puis la recherche par période est refaite si
    /// les dates se lisent dans l'ordre, et la recherche par modèle si un texte
    /// est saisi.
    pub fn rafraichir_recherche(&mut self, voitures: Vec<Voiture>, contrats: Vec<Contrat>, t: Date) -> (sauver: bool)
        ensures
            recherche_rafraichie(*old(self), voitures@, contrats@, *final(self), t.jour as int),
            sauver == (voitures@.len() == 0),
    {
        let defaut = voitures.len() == 0;
        let parc = if defaut {
            voitures_defaut()
        } else {
            completer_etats(&voitures, true)
        };
        self.voitures = parc;
        self.contrats = contrats;
        self.dispo.ids = Vec::new();
        self.dispo.fait = false;
        self.dispo.modele_periode = Vec::new();
        self.dispo.erreur = String::new();
        let du = parse_date(self.dispo.du.as_str());
        let au = parse_date(self.dispo.au.as_str());
        match (du, au) {
            (Some(a), Some(b)) => {
                if a.jour <= b.jour {
                    let ids = self.voitures_libres(a, b);
                    self.dispo.ids = ids;
                    self.dispo.fait = true;
                }
            },
            _ => {},
        }
        if !est_blanc_texte(self.dispo.recherche_modele.as_str()) {
            self.chercher_dispo_modele(t);
        }
        defaut
    }

}

/// Effet de la relecture sur l'application : parc (par défaut s'il est vide,
/// états blancs complétés), contrats, voitures libres sur la période saisie et
/// résultats de la recherche par modèle du jour `t`.
pub open spec fn recherche_rafraichie(avant: App, voitures: Seq<Voiture>, contrats: Seq<Contrat>, apres: App, t: int) -> bool {
    let du = date_saisie(avant.dispo.du@);
    let au = date_saisie(avant.dispo.au@);
    let d = apres.dispo;
    let q = cle_texte(avant.dispo.recherche_modele@);
    &&& if voitures.len() == 0 {
        parc_defaut(apres.voitures@)
    } else {
        parc_complete(voitures, apres.voitures@, true)
    }
    &&& apres.contrats@ == contrats
    &&& if du is Some && au is Some && du->0 <= au->0 {
        d.ids@ == ids_libres(apres.voitures@, contrats, du->0, au->0) && d.fait
    } else {
        d.ids@.len() == 0 && !d.fait
    }
    &&& if est_blanc(avant.dispo.recherche_modele@) {
        d.modele_periode@.len() == 0 && d.erreur@.len() == 0
    } else {
        modele_affiche(d, q, resultats_modele(apres, q, t))
    }
    &&& d == (RechercheDispo {
        ids: d.ids,
        fait: d.fait,
        erreur: d.erreur,
        modele_periode: d.modele_periode,
        ..avant.dispo
    })
    &&& apres == (App { voitures: apres.voitures, contrats: apres.contrats, dispo: d, ..avant })
}

} // verus!
