use iam_business::agence::App;
use iam_business::caisse::couleur_solde;
use iam_business::montant::texte_total;
use iam_business::caisse::{est_message_ok, libelle_choix_periode_de};
use iam_business::date::{parse_date, Date};
use iam_business::demarrage::Donnees;
use iam_business::modeles::{Reparation, VoitureVente};
use iam_business::parc::{couleur_etat_de, voitures_defaut};
use iam_business::reparations::{cout_total, lire_cout, trier_par_date};
use iam_business::theme::rgb;

fn jour(a: i32, m: u32, j: u32) -> Date {
    parse_date(&format!("{:02}/{:02}/{:04}", j, m, a)).unwrap()
}

fn app(t: Date) -> App {
    App::new(
        Donnees {
            voitures: vec![],
            contrats: vec![],
            ventes: vec![],
            reparations: vec![],
            caisse_periodes: vec![],
            caisse_encaissements: vec![],
            caisse_decaissements: vec![],
        },
        t,
    )
    .0
}

fn reparation(id: u64, date: &str, prix: &str) -> Reparation {
    Reparation {
        id,
        voiture_id: 1,
        voiture_modele: "Toyota Corolla 2022".to_string(),
        voiture_plaque: "100-IAM-01".to_string(),
        date: date.to_string(),
        description: "Vidange".to_string(),
        prix: prix.to_string(),
        observation: String::new(),
    }
}

fn vente(id: u64, achat: i64, vendu: Option<i64>) -> VoitureVente {
    VoitureVente {
        id,
        nom: format!("Peugeot {}", id),
        plaque: format!("P-{}", id),
        num_chassis: format!("CH{}", id),
        num_immat: String::new(),
        annee: 2019,
        prix_achat: achat,
        prix_demande: 2000000,
        prix_vendu: vendu.unwrap_or(0),
        vendu: vendu.is_some(),
        date_vente: String::new(),
        notes: String::new(),
    }
}

#[test]
fn parc_par_defaut() {
    let v = voitures_defaut();
    assert_eq!(v.len(), 3);
    assert_eq!(v[0].modele, "Toyota Corolla 2022");
    assert_eq!(v[2].tarif_jour, 450000);
    assert_eq!(v[1].etat, "Bon état");
}

#[test]
fn ajout_d_une_voiture() {
    let mut a = app(jour(2026, 5, 30));
    a.form_voiture.modele = " Kia Picanto ".to_string();
    a.form_voiture.plaque = "200-IAM-09".to_string();
    a.form_voiture.tarif = "2500,5".to_string();
    assert!(!a.ajouter_voiture_annee(2026));
    assert_eq!(a.form_voiture.msg, "Tarif journalier invalide.");
    a.form_voiture.tarif = "2500.5".to_string();
    assert!(a.ajouter_voiture_annee(2026));
    let v = &a.voitures[3];
    assert_eq!(v.id, 4);
    assert_eq!(v.modele, "Kia Picanto");
    assert_eq!(v.tarif_jour, 250050);
    assert_eq!(v.categorie, "Berline");
    assert_eq!(v.annee, 2026);
    assert_eq!(a.form_voiture.msg, "'Kia Picanto' ajouté avec succès.");
    assert_eq!(a.form_voiture.tarif, "3000");
    // même plaque, à la casse près
    a.form_voiture.modele = "Autre".to_string();
    a.form_voiture.plaque = " 200-iam-09".to_string();
    assert!(!a.ajouter_voiture_annee(2026));
    assert_eq!(a.form_voiture.msg, "Une voiture avec cette plaque existe déjà.");
    a.form_voiture.modele = "  ".to_string();
    assert!(!a.ajouter_voiture_annee(2026));
    assert_eq!(a.form_voiture.msg, "Le modèle est obligatoire.");
}

#[test]
fn modification_et_retrait_d_une_voiture() {
    let mut a = app(jour(2026, 5, 30));
    a.ouvrir_edition_voiture(2);
    assert_eq!(a.form_voiture.edit_id, Some(2));
    assert_eq!(a.form_voiture.edit_tarif, "2800");
    assert_eq!(a.form_voiture.edit_annee, "2021");
    a.form_voiture.edit_etat = "En maintenance".to_string();
    a.form_voiture.edit_tarif = "abc".to_string();
    a.form_voiture.edit_couleur = " Rouge ".to_string();
    a.enregistrer_edition_voiture(2);
    assert_eq!(a.voitures[1].etat, "En maintenance");
    assert_eq!(a.voitures[1].tarif_jour, 280000);
    assert_eq!(a.voitures[1].couleur, "Rouge");
    assert_eq!(a.form_voiture.edit_id, None);
    assert_eq!(couleur_etat_de(&a.voitures[1]), rgb(245, 158, 11));
    assert_eq!(couleur_etat_de(&a.voitures[0]), rgb(34, 197, 94));
    a.supprimer_voiture(2);
    assert_eq!(a.voitures.len(), 2);
    assert!(a.voitures.iter().all(|v| v.id != 2));
}

#[test]
fn recherche_dans_le_parc() {
    let mut a = app(jour(2026, 5, 30));
    a.form_voiture.recherche = "SUV".to_string();
    assert_eq!(a.voitures_filtrees(), vec![2]);
    a.form_voiture.recherche = "iam-0".to_string();
    assert_eq!(a.voitures_filtrees(), vec![0, 1, 2]);
    a.form_voiture.recherche = String::new();
    assert_eq!(a.voitures_filtrees().len(), 3);
}

#[test]
fn ventes_de_voitures() {
    let mut a = app(jour(2026, 5, 30));
    a.form_vente.nom = "Peugeot 208".to_string();
    a.form_vente.plaque = "P-1".to_string();
    a.form_vente.chassis = "VF3".to_string();
    a.form_vente.prix_demande = "x".to_string();
    assert!(!a.ajouter_vente_voiture_annee(2026));
    assert_eq!(a.form_vente.msg, "Prix demandé invalide.");
    a.form_vente.prix_demande = "2 000 000".to_string();
    assert!(!a.ajouter_vente_voiture_annee(2026));
    a.form_vente.prix_demande = "2000000".to_string();
    a.form_vente.prix_achat = "1500000".to_string();
    assert!(a.ajouter_vente_voiture_annee(2026));
    assert_eq!(a.ventes[0].id, 1);
    assert_eq!(a.ventes[0].prix_demande, 200000000);
    assert_eq!(a.form_vente.annee, "2026");
    a.form_vente.nom = "Autre".to_string();
    a.form_vente.plaque = "Q".to_string();
    a.form_vente.chassis = " vf3 ".to_string();
    a.form_vente.prix_demande = "1".to_string();
    assert!(!a.ajouter_vente_voiture_annee(2026));
    assert_eq!(a.form_vente.msg, "Une voiture avec ce numéro de châssis existe déjà.");

    a.form_vente.prix_vendu_input = "1800000".to_string();
    a.marquer_vendue(1, jour(2026, 6, 1));
    assert!(a.ventes[0].vendu);
    assert_eq!(a.ventes[0].prix_vendu, 180000000);
    assert_eq!(a.ventes[0].date_vente, "2026-06-01");
    assert_eq!(a.ventes[0].benefice(), 30000000);
    assert_eq!(a.nb_vendues(), 1);
    assert_eq!(a.ca_ventes(), Some(180000000));
    assert_eq!(a.benefice_total(), Some(30000000));
    a.annuler_vente(1);
    assert!(!a.ventes[0].vendu);
    assert_eq!(a.ventes[0].prix_vendu, 0);
    assert_eq!(a.nb_vendues(), 0);
    a.supprimer_vente(1);
    assert!(a.ventes.is_empty());
}

#[test]
fn totaux_des_ventes() {
    let mut a = app(jour(2026, 5, 30));
    a.ventes = vec![vente(1, 100, Some(150)), vente(2, 0, Some(90)), vente(3, 50, None)];
    assert_eq!(a.nb_vendues(), 2);
    assert_eq!(a.ca_ventes(), Some(240));
    assert_eq!(a.benefice_total(), Some(50));
    a.form_vente.recherche = "ch3".to_string();
    let trouvees: Vec<u64> = a.ventes_filtrees().iter().map(|v| v.id).collect();
    assert_eq!(trouvees, vec![3]);
}

#[test]
fn caisse_periodes_et_mouvements() {
    let t = jour(2026, 5, 30);
    let mut a = app(t);
    a.caisse.new_nom = "Juin".to_string();
    a.caisse.new_debut = "01/06/2026".to_string();
    a.caisse.new_fin = "pas une date".to_string();
    assert!(!a.creer_periode_caisse(t));
    assert_eq!(a.caisse.new_msg, "Date de fin invalide (JJ/MM/AAAA).");
    a.caisse.new_fin = "30/06/2026".to_string();
    assert!(a.creer_periode_caisse(t));
    assert_eq!(a.caisse.new_msg, "OK Période \"Juin\" créée.");
    assert!(est_message_ok(&a.caisse.new_msg));
    assert!(!est_message_ok("Montant invalide."));
    assert_eq!(a.caisse.periode_active, Some(1));
    assert_eq!(a.caisse_periodes[0].date_debut, "2026-06-01");
    assert_eq!(a.libelle_periode_active(), "Juin (01/06/2026 au 30/06/2026)");
    assert!(!a.est_fermee(1));

    a.caisse.enc_client = "Karim".to_string();
    a.caisse.enc_montant = "-3".to_string();
    assert!(!a.ajouter_encaissement(1, t));
    assert_eq!(a.caisse.enc_msg, "Montant invalide.");
    a.caisse.enc_montant = "7000".to_string();
    assert!(a.ajouter_encaissement(1, t));
    assert_eq!(a.caisse.enc_msg, "OK Encaissement de 7000 DA ajouté.");
    a.caisse.dec_nom = "Garage".to_string();
    a.caisse.dec_montant = "2500.5".to_string();
    assert!(a.ajouter_decaissement(1, t));
    assert_eq!(a.caisse.dec_msg, "OK Décaissement de 2500 DA ajouté.");
    assert_eq!(a.totaux_periode(1), (Some(700000), Some(250050), Some(449950)));
    assert_eq!(a.encaissements_de(1).len(), 1);
    assert_eq!(a.encaissements_de(2).len(), 0);

    a.fermer_periode(1);
    assert!(a.est_fermee(1));
    assert_eq!(libelle_choix_periode_de(&a.caisse_periodes[0]), "Juin  (01/06/2026 au 30/06/2026)  [Fermée]");
    a.supprimer_periode(1);
    assert!(a.caisse_periodes.is_empty());
    assert!(a.caisse_encaissements.is_empty());
    assert!(a.caisse_decaissements.is_empty());
    assert_eq!(a.caisse.periode_active, None);
    assert_eq!(a.libelle_periode_active(), "— Choisir une période —");
}

#[test]
fn reparations_triees_et_couts() {
    let t = jour(2026, 5, 30);
    let mut a = app(t);
    a.form_reparation.voiture_idx = 0;
    assert!(!a.ajouter_reparation(t));
    assert_eq!(a.form_reparation.msg, "Choisissez une voiture.");
    a.form_reparation.voiture_idx = 1;
    a.form_reparation.description = " Freins ".to_string();
    a.form_reparation.date = "02/05/2026".to_string();
    a.form_reparation.prix = "12 000 DA".to_string();
    assert!(a.ajouter_reparation(t));
    a.form_reparation.description = "Pneus".to_string();
    a.form_reparation.date = "10/05/2026".to_string();
    a.form_reparation.prix = "8000,5".to_string();
    assert!(a.ajouter_reparation(t));
    let dates: Vec<&str> = a.reparations.iter().map(|r| r.date.as_str()).collect();
    assert_eq!(dates, vec!["2026-05-10", "2026-05-02"]);
    assert_eq!(a.reparations[1].description, "Freins");
    assert_eq!(a.form_reparation.date, "30/05/2026");
    assert_eq!(lire_cout(&a.reparations[1]), Some(1200000));
    assert_eq!(lire_cout(&a.reparations[0]), Some(800050));
    assert_eq!(cout_total(&a.reparations), Some(2000050));
    a.form_reparation.recherche = " PNEU ".to_string();
    assert_eq!(a.reparations_filtrees().len(), 1);
    a.supprimer_reparation(a.reparations[0].id);
    assert_eq!(a.reparations.len(), 1);
}

#[test]
fn tri_stable_par_date() {
    let v = vec![
        reparation(1, "2026-01-02", ""),
        reparation(2, "2026-03-01", "abc"),
        reparation(3, "2026-01-02", "5"),
    ];
    let ids: Vec<u64> = trier_par_date(v).iter().map(|r| r.id).collect();
    assert_eq!(ids, vec![2, 1, 3]);
    assert_eq!(cout_total(&vec![reparation(1, "", "abc"), reparation(2, "", "5 da")]), Some(500));
}

#[test]
fn identifiants_distincts_apres_ajouts_et_retraits() {
    let t = jour(2026, 5, 30);
    let mut a = app(t);
    for (i, plaque) in ["A-1", "A-2", "A-3"].iter().enumerate() {
        a.form_voiture.modele = format!("Modèle {}", i);
        a.form_voiture.plaque = plaque.to_string();
        assert!(a.ajouter_voiture_annee(2026));
    }
    a.supprimer_voiture(4);
    a.form_voiture.modele = "Encore".to_string();
    a.form_voiture.plaque = "A-9".to_string();
    assert!(a.ajouter_voiture_annee(2026));
    let mut ids: Vec<u64> = a.voitures.iter().map(|v| v.id).collect();
    assert_eq!(ids, vec![1, 2, 3, 5, 6, 7]);
    ids.dedup();
    assert_eq!(ids.len(), a.voitures.len());
    a.form_reparation.voiture_idx = 2;
    a.form_reparation.description = "Vidange".to_string();
    for date in ["03/05/2026", "01/05/2026", "02/05/2026"] {
        a.form_reparation.description = "Vidange".to_string();
        a.form_reparation.date = date.to_string();
        assert!(a.ajouter_reparation(t));
    }
    let ids: Vec<u64> = a.reparations.iter().map(|r| r.id).collect();
    assert_eq!(ids, vec![1, 3, 2]);
}

#[test]
fn reparation_voiture_hors_du_parc_refusee_par_la_saisie() {
    let t = jour(2026, 5, 30);
    let mut a = app(t);
    let n = a.voitures.len();
    a.form_reparation.voiture_idx = n + 3;
    a.form_reparation.description = "   ".to_string();
    a.form_reparation.date = "02/05/2026".to_string();
    assert_eq!(a.refus_reparation(), Some("La description est obligatoire."));
    assert!(!a.ajouter_reparation(t));
    assert_eq!(a.form_reparation.msg, "La description est obligatoire.");
    assert!(!a.form_reparation.ok);
    a.form_reparation.description = "Vidange".to_string();
    a.form_reparation.date = "32/05/2026".to_string();
    assert!(!a.ajouter_reparation(t));
    assert_eq!(a.form_reparation.msg, "Date invalide (JJ/MM/AAAA).");
    assert!(a.reparations.is_empty());
    a.form_reparation.voiture_idx = 1;
    a.form_reparation.date = "02/05/2026".to_string();
    assert_eq!(a.refus_reparation(), None);
}

#[test]
fn couleur_et_texte_du_solde() {
    assert_eq!(couleur_solde(Some(-1)), rgb(200, 30, 40));
    assert_eq!(couleur_solde(Some(0)), rgb(34, 197, 94));
    assert_eq!(couleur_solde(None), rgb(34, 197, 94));
    assert_eq!(texte_total(Some(123460)), "1235 DA");
    assert_eq!(texte_total(None), "—");
    assert_eq!(texte_total(Some(i128::MIN)), "—");
}

#[test]
fn ajout_avec_la_date_du_jour() {
    let t = jour(2027, 3, 2);
    let mut a = app(t);
    a.form_voiture.modele = "Dacia".to_string();
    a.form_voiture.plaque = "X-1".to_string();
    a.form_voiture.tarif = "2000".to_string();
    assert!(a.ajouter_voiture(t));
    assert_eq!(a.form_voiture.annee, "2027");
    a.form_vente.nom = "Fiat".to_string();
    a.form_vente.plaque = "F-1".to_string();
    a.form_vente.chassis = "ZFA".to_string();
    a.form_vente.prix_demande = "100".to_string();
    assert!(a.ajouter_vente_voiture(t));
    assert_eq!(a.form_vente.annee, "2027");
}
