use iam_business::agence::{App, Onglet};
use iam_business::date::{parse_date, Date};
use iam_business::demarrage::{
    cars_file, decaissements_file, encaissements_file, periodes_file, rentals_file,
    reparations_file, ventes_file, Donnees,
};
use iam_business::fenetres::{texte_date_heure, texte_etat};
use iam_business::impayes::{message_vide, retard_jours, situation_impaye, total_du};
use iam_business::modeles::{Contrat, Voiture};
use iam_business::theme::rgb;

fn jour(a: i32, m: u32, j: u32) -> Date {
    parse_date(&format!("{:02}/{:02}/{:04}", j, m, a)).unwrap()
}

fn donnees(voitures: Vec<Voiture>, contrats: Vec<Contrat>) -> Donnees {
    Donnees {
        voitures,
        contrats,
        ventes: vec![],
        reparations: vec![],
        caisse_periodes: vec![],
        caisse_encaissements: vec![],
        caisse_decaissements: vec![],
    }
}

fn contrat(id: u64, vid: u64, debut: &str, fin: &str, tarif: i64, paye: i64, statut: &str) -> Contrat {
    Contrat {
        id,
        numero: format!("IAM-2026-{:04}", id),
        voiture_id: vid,
        voiture_modele: "Renault Clio 2021".to_string(),
        voiture_plaque: "100-IAM-02".to_string(),
        client_nom: format!("Client {}", id),
        client_tel: format!("055{}", id),
        agent: "Sami".to_string(),
        date_debut: debut.to_string(),
        date_fin: fin.to_string(),
        heure_debut: String::new(),
        heure_fin: String::new(),
        km_depart: 0,
        km_retour: 0,
        tarif_jour: tarif,
        notes: "Penser au siège bébé".to_string(),
        statut: statut.to_string(),
        montant_paye: paye,
        modifiable_note: String::new(),
    }
}

fn app_avec(contrats: Vec<Contrat>, t: Date) -> App {
    App::new(donnees(vec![], contrats), t).0
}

#[test]
fn demarrage_avec_parc_par_defaut() {
    let t = jour(2026, 5, 30);
    let (a, sauver) = App::new(donnees(vec![], vec![]), t);
    assert!(sauver);
    assert_eq!(a.voitures.len(), 3);
    assert_eq!(a.onglet, Onglet::Tableau);
    assert_eq!(a.formulaire.debut, "30/05/2026");
    assert_eq!(a.dispo.au, "06/06/2026");
    assert_eq!(a.form_voiture.annee, "2026");
    assert_eq!(a.form_voiture.tarif, "3000");
    assert_eq!(a.form_voiture.cat, "Berline");
    assert_eq!(a.caisse.enc_date, "30/05/2026");
    assert!(!a.dark_mode);
}

#[test]
fn demarrage_avec_parc_relu() {
    let t = jour(2026, 5, 30);
    let mut v = iam_business::parc::voitures_defaut();
    v[0].etat = String::new();
    v[1].etat = "  ".to_string();
    let (a, sauver) = App::new(donnees(v, vec![]), t);
    assert!(!sauver);
    assert_eq!(a.voitures[0].etat, "Bon état");
    assert_eq!(a.voitures[1].etat, "  ");
}

#[test]
fn noms_des_fichiers() {
    assert_eq!(cars_file(), "voitures.csv");
    assert_eq!(rentals_file(), "contrats.csv");
    assert_eq!(ventes_file(), "ventes_voitures.csv");
    assert_eq!(reparations_file(), "reparations.csv");
    assert_eq!(periodes_file(), "caisse_periodes.csv");
    assert_eq!(encaissements_file(), "caisse_encaissements.csv");
    assert_eq!(decaissements_file(), "caisse_decaissements.csv");
}

#[test]
fn activite_du_jour() {
    let t = jour(2026, 6, 2);
    let a = app_avec(
        vec![
            contrat(1, 1, "2026-06-01", "2026-06-05", 350000, 0, "Actif"),
            contrat(2, 2, "2026-06-02", "2026-06-03", 280000, 0, "Actif"),
            contrat(3, 3, "2026-05-01", "2026-06-03", 450000, 0, "Terminé"),
        ],
        t,
    );
    assert_eq!(a.loues_auj(t), 1);
    assert_eq!(a.disponibles_le(t), 2);
    let retours: Vec<u64> = a.retours_le(jour(2026, 6, 3)).iter().map(|c| c.id).collect();
    assert_eq!(retours, vec![2]);
    let departs: Vec<u64> = a.departs_le(t).iter().map(|c| c.id).collect();
    assert_eq!(departs, vec![2]);
    assert_eq!(a.ca_mois(t), Some(350000 * 4 + 280000));
    assert_eq!(a.ca_total(), Some(350000 * 4 + 280000 + 450000 * 33));
}

#[test]
fn chiffre_d_affaires_sans_annules() {
    let t = jour(2026, 6, 2);
    let a = app_avec(
        vec![
            contrat(1, 1, "2026-06-01", "2026-06-05", 100, 0, "Actif"),
            contrat(2, 2, "2026-06-01", "2026-06-05", 100, 0, "Annulé"),
            contrat(3, 2, "2026-07-01", "2026-07-02", 100, 0, "Actif"),
        ],
        t,
    );
    assert_eq!(a.ca_mois(t), Some(400));
    assert_eq!(a.ca_total(), Some(500));
}

#[test]
fn retour_rendu_puis_traite() {
    let t = jour(2026, 6, 3);
    let mut a = app_avec(
        vec![
            contrat(1, 1, "2026-06-01", "2026-06-03", 100, 0, "Actif"),
            contrat(2, 2, "2026-06-01", "2026-06-03", 100, 0, "Actif"),
        ],
        t,
    );
    assert_eq!(a.retours_a_traiter_le(t).len(), 2);
    a.marquer_rendu(1);
    assert_eq!(a.contrats[0].statut, "Terminé");
    let reste: Vec<u64> = a.retours_a_traiter_le(t).iter().map(|c| c.id).collect();
    assert_eq!(reste, vec![2]);
}

#[test]
fn renouvellement_d_un_contrat() {
    let t = jour(2026, 6, 3);
    let mut a = app_avec(vec![contrat(1, 3, "2026-06-01", "2026-06-03", 450050, 0, "Actif")], t);
    a.renouveler(1);
    assert!(a.tableau.alerte_retour_ok.contains(&1));
    assert_eq!(a.onglet, Onglet::NouveauContrat);
    assert_eq!(a.formulaire.voiture, 3);
    assert_eq!(a.formulaire.debut, "03/06/2026");
    assert_eq!(a.formulaire.fin, "");
    assert_eq!(a.formulaire.tarif, "4500.5");
    assert_eq!(a.formulaire.montant_paye, "0");
    assert_eq!(a.formulaire.client, "Client 1");
    assert!(a.retours_a_traiter_le(t).is_empty());
    a.revenir();
    assert_eq!(a.onglet, Onglet::Tableau);
    assert_eq!(a.onglet_prec, None);
}

#[test]
fn liste_du_tableau_et_libelles() {
    let t = jour(2026, 6, 2);
    let mut a = app_avec(
        vec![
            contrat(1, 1, "2026-06-01", "2026-06-05", 100, 0, "Actif"),
            contrat(2, 2, "2026-07-01", "2026-07-05", 100, 0, "Actif"),
            contrat(3, 3, "2026-05-01", "2026-05-05", 100, 0, "Terminé"),
            contrat(4, 3, "2026-05-01", "2026-05-05", 100, 0, "Brouillon"),
        ],
        t,
    );
    assert_eq!(a.contrats_tableau_le(t), vec![3, 2, 1, 0]);
    a.tableau.filter = 1;
    assert_eq!(a.contrats_tableau_le(t), vec![0]);
    a.tableau.filter = 3;
    assert_eq!(a.contrats_tableau_le(t), vec![1]);
    a.tableau.filter = 2;
    assert_eq!(a.contrats_tableau_le(t), vec![2]);
    assert_eq!(a.statut_affiche_le(&a.contrats[1], t).1, "Réservé");
    assert_eq!(a.statut_affiche_le(&a.contrats[0], t).1, "Actif");
    assert_eq!(a.statut_affiche_le(&a.contrats[3], t).1, "Brouillon");
}

#[test]
fn recherche_par_periode() {
    let t = jour(2026, 5, 30);
    let mut a = app_avec(vec![contrat(1, 2, "2026-06-02", "2026-06-06", 100, 0, "Actif")], t);
    a.dispo.du = "01/06/2026".to_string();
    a.dispo.au = "04/06/2026".to_string();
    a.chercher_dispo_periode();
    assert!(a.dispo.fait);
    assert_eq!(a.dispo.ids, vec![1, 3]);
    assert_eq!(a.voitures_trouvees(), vec![0, 2]);
    a.dispo.au = "01/05/2026".to_string();
    a.chercher_dispo_periode();
    assert_eq!(a.dispo.erreur, "La date de début doit être avant la date de fin.");
    a.dispo.au = "n'importe".to_string();
    a.chercher_dispo_periode();
    assert_eq!(a.dispo.erreur, "Format invalide. Utilisez JJ/MM/AAAA.");
    assert_eq!(a.dispo.ids, vec![1, 3]);
    a.reinitialiser_dispo(t);
    assert_eq!(a.dispo.du, "30/05/2026");
    assert!(a.dispo.ids.is_empty());
    assert!(!a.dispo.fait);
}

#[test]
fn recherche_par_modele() {
    let t = jour(2026, 6, 3);
    let mut a = app_avec(vec![contrat(1, 2, "2026-06-02", "2026-06-06", 100, 0, "Actif")], t);
    a.dispo.recherche_modele = "   ".to_string();
    a.chercher_dispo_modele(t);
    assert_eq!(a.dispo.erreur, "Entrez un modèle ou un type à rechercher.");
    a.dispo.recherche_modele = " CITADINE ".to_string();
    a.chercher_dispo_modele(t);
    assert_eq!(a.dispo.erreur, "");
    assert_eq!(a.dispo.modele_periode.len(), 1);
    let (vid, modele, statut, _) = &a.dispo.modele_periode[0];
    assert_eq!(*vid, 2);
    assert_eq!(modele, "Renault Clio 2021");
    assert_eq!(statut, "En période");
    a.dispo.recherche_modele = "gris".to_string();
    a.chercher_dispo_modele(t);
    assert_eq!(a.dispo.modele_periode[0].2, "Disponible");
    assert_eq!(a.dispo.modele_periode[0].3, "Dacia Duster 2023 est disponible");
    a.dispo.recherche_modele = "camion".to_string();
    a.chercher_dispo_modele(t);
    assert_eq!(a.dispo.erreur, "Aucune voiture ne correspond à cette recherche.");
    a.effacer_recherche_modele();
    assert!(a.dispo.modele_periode.is_empty());
    assert_eq!(a.dispo.recherche_modele, "");
    assert_eq!(a.couleur_resultat_de("LIBRE"), rgb(34, 197, 94));
    assert_eq!(a.couleur_resultat_de("EN PÉRIODE"), rgb(200, 30, 40));
}

#[test]
fn relecture_et_recherche_rafraichie() {
    let t = jour(2026, 5, 30);
    let mut a = app_avec(vec![], t);
    a.dispo.du = "01/06/2026".to_string();
    a.dispo.au = "04/06/2026".to_string();
    a.dispo.recherche_modele = "suv".to_string();
    let mut parc = iam_business::parc::voitures_defaut();
    parc[2].etat = " ".to_string();
    let sauver = a.rafraichir_recherche(parc, vec![contrat(1, 1, "2026-06-02", "2026-06-03", 100, 0, "Actif")], t);
    assert!(!sauver);
    assert_eq!(a.voitures[2].etat, "Bon état");
    assert_eq!(a.contrats.len(), 1);
    assert_eq!(a.dispo.ids, vec![2, 3]);
    assert!(a.dispo.fait);
    assert_eq!(a.dispo.modele_periode.len(), 1);
    assert!(a.rafraichir_recherche(vec![], vec![], t));
    assert_eq!(a.voitures.len(), 3);
}

#[test]
fn louer_une_voiture_trouvee() {
    let t = jour(2026, 5, 30);
    let mut a = app_avec(vec![], t);
    a.naviguer(Onglet::Disponibilite);
    a.dispo.du = "01/06/2026".to_string();
    a.dispo.au = "04/06/2026".to_string();
    a.louer(3);
    assert_eq!(a.formulaire.voiture, 3);
    assert_eq!(a.formulaire.debut, "01/06/2026");
    assert_eq!(a.formulaire.tarif, "4500");
    assert_eq!(a.onglet, Onglet::NouveauContrat);
    assert_eq!(a.onglet_prec, Some(Onglet::Disponibilite));
    a.formulaire.client = "Karim".to_string();
    a.formulaire.agent = "Sami".to_string();
    assert!(a.enregistrer_contrat(t));
    assert_eq!(a.contrats[0].voiture_id, 3);
    a.louer(42);
    assert_eq!(a.formulaire.voiture, 0);
}

#[test]
fn impayes_et_retards() {
    let t = jour(2026, 6, 10);
    let mut a = app_avec(
        vec![
            contrat(1, 1, "2026-06-01", "2026-06-05", 100000, 50000, "Actif"),
            contrat(2, 2, "2026-06-01", "2026-06-05", 100000, 400000, "Terminé"),
            contrat(3, 3, "2026-06-20", "2026-06-25", 100000, 0, "Actif"),
            contrat(4, 3, "2026-05-01", "2026-05-03", 100000, 0, "Terminé"),
            contrat(5, 3, "2026-05-01", "2026-05-03", 100000, 0, "Annulé"),
        ],
        t,
    );
    let ids: Vec<u64> = a.impayes_le(t).iter().map(|c| c.id).collect();
    assert_eq!(ids, vec![1, 4]);
    let liste = a.impayes_le(t);
    assert_eq!(total_du(&liste), Some(350000 + 200000));
    assert_eq!(retard_jours(&liste[0], t), 5);
    assert_eq!(retard_jours(&liste[1], t), 0);
    assert_eq!(situation_impaye(&liste[0], t), (5, 500000, 850000));
    a.impaye_recherche = " 0554 ".to_string();
    let ids: Vec<u64> = a.impayes_le(t).iter().map(|c| c.id).collect();
    assert_eq!(ids, vec![4]);
    assert_eq!(message_vide(""), "  Aucun client impayé. Tout est règlé !");
    assert_eq!(message_vide("x"), "Aucun résultat pour cette recherche.");
}

#[test]
fn fenetres_de_detail() {
    let t = jour(2026, 6, 2);
    let mut a = app_avec(
        vec![
            contrat(1, 2, "2026-06-01", "2026-06-04", 100, 0, "Actif"),
            contrat(2, 2, "2026-06-10", "2026-06-12", 100, 0, "Actif"),
            contrat(3, 2, "2026-05-01", "2026-05-02", 100, 0, "Terminé"),
            contrat(4, 2, "2026-04-01", "2026-04-02", 100, 100, "Actif"),
        ],
        t,
    );
    a.ouvrir_voiture(2);
    assert!(a.modal_voiture.visible);
    let h: Vec<u64> = a.historique_modal_le(t).iter().map(|c| c.id).collect();
    assert_eq!(h, vec![2, 1, 3, 4]);
    let titres: Vec<String> = a.historique_modal_le(t).iter().map(|c| a.classe_historique_le(c, t).1).collect();
    assert_eq!(titres, vec!["Futur", "En période", "Impayé", "Contrat"]);
    a.modal_voiture.histo_recherche = "CLIENT 3".to_string();
    assert_eq!(a.historique_modal_le(t).len(), 1);
    a.supprimer_contrat_id(3);
    assert_eq!(a.contrats.len(), 3);
    a.ouvrir_contrat(9);
    a.fermer_fenetres_orphelines();
    assert!(!a.modal_contrat.visible);
    assert!(a.modal_voiture.visible);
    assert_eq!(texte_date_heure("2026-06-01", "09:30"), "01/06/2026 à 09:30");
    assert_eq!(texte_date_heure("2026-06-01", ""), "01/06/2026");
    let mut v = a.voitures[0].copie();
    v.etat = String::new();
    assert_eq!(texte_etat(&v), "Bon état");
}

#[test]
fn theme_et_navigation() {
    let t = jour(2026, 6, 2);
    let mut a = app_avec(vec![], t);
    a.basculer_theme();
    assert!(a.dark_mode);
    a.basculer_theme();
    assert!(!a.dark_mode);
    a.appliquer_theme();
    assert_eq!(a.theme.bg(), rgb(242, 243, 247));
    a.naviguer(Onglet::Caisse);
    a.naviguer(Onglet::Caisse);
    assert_eq!(a.onglet_prec, Some(Onglet::Tableau));
    a.nav_menu(Onglet::Ventes);
    assert_eq!(a.onglet_prec, None);
    a.revenir();
    assert_eq!(a.onglet, Onglet::Ventes);
}

#[test]
fn choix_de_la_voiture_dans_le_formulaire() {
    let t = jour(2026, 6, 2);
    let mut a = app_avec(vec![], t);
    assert_eq!(a.choix_voitures(), vec![2, 1, 0]);
    a.formulaire.voiture_search = "IAM-01".to_string();
    assert_eq!(a.choix_voitures(), vec![0]);
    assert_eq!(a.libelle_voiture_choisie(), "-- Choisir un véhicule --");
    a.formulaire.voiture_note = "Automatique".to_string();
    assert_eq!(a.libelle_voiture_choisie(), ">> Automatique <<");
    a.formulaire.voiture = 2;
    assert_eq!(a.libelle_voiture_choisie(), "Renault Clio 2021 (100-IAM-02)");
    a.apres_choix_voiture(0);
    assert!(a.formulaire.car_error_cleared);
    assert_eq!(a.formulaire.tarif, "2800");
    a.formulaire.debut = "01/06/2026".to_string();
    a.formulaire.fin = "04/06/2026".to_string();
    a.formulaire.montant_paye = "1000".to_string();
    let ap = a.apercu_prix().unwrap();
    assert_eq!((ap.jours, ap.tarif, ap.total, ap.paye, ap.reste), (3, 280000, 840000, 100000, 740000));
    a.formulaire.fin = "01/05/2026".to_string();
    assert!(a.apercu_prix().is_none());
}

#[test]
fn retours_et_departs_du_lendemain() {
    let t = jour(2026, 6, 3);
    let a = app_avec(
        vec![
            contrat(1, 1, "2026-06-01", "2026-06-04", 100, 0, "Actif"),
            contrat(2, 2, "2026-06-04", "2026-06-09", 100, 0, "Actif"),
            contrat(3, 3, "2026-06-04", "2026-06-04", 100, 0, "Annulé"),
        ],
        t,
    );
    let r: Vec<u64> = a.retours_demain(t).iter().map(|c| c.id).collect();
    let d: Vec<u64> = a.departs_demain(t).iter().map(|c| c.id).collect();
    assert_eq!(r, vec![1]);
    assert_eq!(d, vec![2]);
    assert_eq!(a.numero_suggere(t), "IAM-2026-0004");
}
