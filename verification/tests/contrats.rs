use iam_business::agence::{App, Onglet};
use iam_business::date::{parse_date, Date};
use iam_business::demarrage::Donnees;
use iam_business::modeles::{Contrat, Voiture};

fn jour(a: i32, m: u32, j: u32) -> Date {
    parse_date(&format!("{:02}/{:02}/{:04}", j, m, a)).unwrap()
}

fn donnees(voitures: Vec<Voiture>, contrats: Vec<Contrat>) -> Donnees {
    Donnees {
        voitures,
        contrats,
        ventes: vec![],
        reparations: vec![],
        caisse_periodes: vec![],
        caisse_encaissements: vec![],
        caisse_decaissements: vec![],
    }
}

fn contrat(id: u64, vid: u64, debut: &str, fin: &str, tarif: i64, paye: i64, statut: &str) -> Contrat {
    Contrat {
        id,
        numero: format!("IAM-2026-{:04}", id),
        voiture_id: vid,
        voiture_modele: "Renault Clio 2021".to_string(),
        voiture_plaque: "100-IAM-02".to_string(),
        client_nom: format!("Client {}", id),
        client_tel: "0550".to_string(),
        agent: "Sami".to_string(),
        date_debut: debut.to_string(),
        date_fin: fin.to_string(),
        heure_debut: String::new(),
        heure_fin: String::new(),
        km_depart: 1200050,
        km_retour: 0,
        tarif_jour: tarif,
        notes: String::new(),
        statut: statut.to_string(),
        montant_paye: paye,
        modifiable_note: String::new(),
    }
}

fn app_avec(contrats: Vec<Contrat>, t: Date) -> App {
    App::new(donnees(vec![], contrats), t).0
}

fn remplir(app: &mut App, voiture: usize, debut: &str, fin: &str) {
    app.formulaire.voiture = voiture;
    app.formulaire.client = " Karim ".to_string();
    app.formulaire.agent = "Sami".to_string();
    app.formulaire.debut = debut.to_string();
    app.formulaire.fin = fin.to_string();
    app.formulaire.tarif = String::new();
}

#[test]
fn calculs_d_un_contrat() {
    let c = contrat(1, 2, "2026-06-01", "2026-06-04", 280000, 500000, "Actif");
    assert_eq!(c.jours(), 3);
    assert_eq!(c.total(), 840000);
    assert_eq!(c.reste_a_payer(), 340000);
    let mut paye = c.copie();
    paye.montant_paye = 900000;
    assert_eq!(paye.reste_a_payer(), 0);
    let meme_jour = contrat(2, 2, "2026-06-01", "2026-06-01", 280000, 0, "Actif");
    assert_eq!(meme_jour.jours(), 1);
    let illisible = contrat(3, 2, "01/06/2026", "2026-06-04", 100, 0, "Actif");
    assert_eq!(illisible.jours(), 1);
    let mut km = c.copie();
    km.km_retour = 1250050;
    assert_eq!(km.km_parcourus(), 50000);
    km.km_retour = 10;
    assert_eq!(km.km_parcourus(), 0);
}

#[test]
fn chevauchement_de_periodes() {
    let c = contrat(1, 2, "2026-06-01", "2026-06-04", 100, 0, "Actif");
    assert!(c.chevauche(jour(2026, 6, 3), jour(2026, 6, 10)));
    assert!(!c.chevauche(jour(2026, 6, 4), jour(2026, 6, 10)));
    assert!(!c.chevauche(jour(2026, 5, 20), jour(2026, 6, 1)));
    let annule = contrat(2, 2, "2026-06-01", "2026-06-04", 100, 0, "Annulé");
    assert!(!annule.chevauche(jour(2026, 6, 2), jour(2026, 6, 3)));
}

#[test]
fn enregistrement_d_un_nouveau_contrat() {
    let t = jour(2026, 5, 30);
    let mut app = app_avec(vec![], t);
    remplir(&mut app, 2, "01/06/2026", "04/06/2026");
    assert!(app.enregistrer_contrat(t));
    assert_eq!(app.contrats.len(), 1);
    let c = &app.contrats[0];
    assert_eq!(c.id, 1);
    assert_eq!(c.numero, "IAM-2026-0001");
    assert_eq!(c.voiture_id, 2);
    assert_eq!(c.client_nom, "Karim");
    assert_eq!(c.date_debut, "2026-06-01");
    assert_eq!(c.date_fin, "2026-06-04");
    assert_eq!(c.tarif_jour, 280000);
    assert_eq!(c.statut, "Actif");
    assert!(app.formulaire.ok);
    assert_eq!(app.formulaire.msg, "Contrat IAM-2026-0001 enregistré. 3 jours – 8400 DA");
    assert_eq!(app.formulaire.agent, "Sami");
    assert_eq!(app.formulaire.client, "");
    assert_eq!(app.formulaire.debut, "30/05/2026");
    assert_eq!(app.formulaire.fin, "06/06/2026");
}

#[test]
fn erreurs_d_enregistrement() {
    let t = jour(2026, 5, 30);
    let cas: Vec<(fn(&mut App), &str)> = vec![
        (|a: &mut App| a.formulaire.voiture = 0, "Sélectionnez un véhicule ou décrivez le type."),
        (|a: &mut App| a.formulaire.client = "  ".to_string(), "Le nom du client est obligatoire."),
        (|a: &mut App| a.formulaire.agent = String::new(), "L'agent commercial est obligatoire."),
        (|a: &mut App| a.formulaire.debut = "32/05/2026".to_string(), "Date de début invalide (JJ/MM/AAAA)."),
        (|a: &mut App| a.formulaire.fin = "x".to_string(), "Date de fin invalide (JJ/MM/AAAA)."),
        (|a: &mut App| a.formulaire.fin = "01/05/2026".to_string(), "La date de début doit être avant la date de fin."),
        (|a: &mut App| a.formulaire.tarif = "-5".to_string(), "Prix par jour invalide."),
    ];
    for (modif, message) in cas {
        let mut app = app_avec(vec![], t);
        remplir(&mut app, 2, "01/06/2026", "04/06/2026");
        modif(&mut app);
        assert!(!app.enregistrer_contrat(t));
        assert_eq!(app.formulaire.msg, message);
        assert!(!app.formulaire.ok);
        assert!(app.contrats.is_empty());
    }
}

#[test]
fn numero_deja_pris() {
    let t = jour(2026, 5, 30);
    let mut app = app_avec(vec![contrat(7, 1, "2026-01-01", "2026-01-02", 100, 0, "Terminé")], t);
    remplir(&mut app, 2, "01/06/2026", "04/06/2026");
    app.formulaire.numero = " IAM-2026-0007 ".to_string();
    assert!(!app.enregistrer_contrat(t));
    assert_eq!(app.formulaire.msg, "Ce numéro de contrat existe déjà.");
}

#[test]
fn double_reservation_refusee() {
    let t = jour(2026, 5, 30);
    let mut app = app_avec(vec![contrat(1, 2, "2026-06-02", "2026-06-06", 100, 0, "Actif")], t);
    remplir(&mut app, 2, "01/06/2026", "04/06/2026");
    assert!(!app.est_disponible(2, jour(2026, 6, 1), jour(2026, 6, 4), None));
    assert!(!app.enregistrer_contrat(t));
    assert_eq!(app.formulaire.msg, "Ce véhicule est déjà loué sur cette période !");
    // une autre voiture est libre
    remplir(&mut app, 3, "01/06/2026", "04/06/2026");
    assert!(app.enregistrer_contrat(t));
    assert_eq!(app.contrats[1].id, 2);
}

#[test]
fn voiture_libre_trouvee_puis_louee() {
    let t = jour(2026, 5, 30);
    let mut app = app_avec(vec![contrat(1, 2, "2026-06-02", "2026-06-06", 100, 0, "Actif")], t);
    assert_eq!(app.voitures_libres(jour(2026, 6, 1), jour(2026, 6, 4)), vec![1, 3]);
    remplir(&mut app, 1, "01/06/2026", "04/06/2026");
    assert!(app.enregistrer_contrat(t));
}

#[test]
fn modification_d_un_contrat() {
    let t = jour(2026, 5, 30);
    let mut app = app_avec(vec![contrat(4, 2, "2026-06-01", "2026-06-04", 280000, 100050, "Actif")], t);
    app.preparer_modification(0);
    assert_eq!(app.onglet, Onglet::NouveauContrat);
    assert_eq!(app.onglet_prec, Some(Onglet::Tableau));
    assert_eq!(app.formulaire.debut, "01/06/2026");
    assert_eq!(app.formulaire.tarif, "2800");
    assert_eq!(app.formulaire.montant_paye, "1000.5");
    assert_eq!(app.formulaire.km_dep, "12000.5");
    assert_eq!(app.formulaire.voiture, 2);
    assert_eq!(app.formulaire.en_edition, Some(0));
    // relu tel quel, le contrat garde ses montants (et ne se chevauche pas lui-même)
    assert!(app.enregistrer_contrat(t));
    let c = &app.contrats[0];
    assert_eq!(c.id, 4);
    assert_eq!(c.tarif_jour, 280000);
    assert_eq!(c.montant_paye, 100050);
    assert_eq!(c.km_depart, 1200050);
    assert_eq!(app.formulaire.msg, "Contrat IAM-2026-0004 modifié avec succès.");
    // un rang hors liste ne change rien
    app.preparer_modification(5);
    assert_eq!(app.formulaire.en_edition, None);
}

#[test]
fn numero_propose() {
    let t = jour(2026, 5, 30);
    let app = app_avec(vec![contrat(41, 2, "2026-06-01", "2026-06-04", 100, 0, "Actif")], t);
    assert_eq!(app.numero_pour_annee(2026), "IAM-2026-0042");
    assert_eq!(app.prochain_id_contrat(), 42);
}

#[test]
fn historique_d_une_voiture_du_plus_recent_au_plus_ancien() {
    let t = jour(2026, 5, 30);
    let app = app_avec(
        vec![
            contrat(1, 2, "2026-01-01", "2026-01-05", 100, 0, "Terminé"),
            contrat(2, 2, "2026-03-01", "2026-03-05", 100, 0, "Terminé"),
            contrat(3, 1, "2026-04-01", "2026-04-05", 100, 0, "Terminé"),
            contrat(4, 2, "2026-02-01", "2026-02-05", 100, 0, "Annulé"),
            contrat(5, 2, "2026-03-01", "2026-03-02", 100, 0, "Actif"),
        ],
        t,
    );
    let h: Vec<u64> = app.contrats_voiture(2, t).iter().map(|c| c.id).collect();
    assert_eq!(h, vec![2, 5, 1]);
}

#[test]
fn situation_d_une_voiture() {
    let t = jour(2026, 6, 2);
    let app = app_avec(vec![contrat(1, 2, "2026-06-01", "2026-06-04", 280000, 0, "Actif")], t);
    let s = app.statut_voiture(2, t, t, t);
    assert_eq!(s.libelle, "En période");
    assert_eq!(s.couleur.r, 200);
    let libre = app.statut_voiture(1, t, t, t);
    assert_eq!(libre.libelle, "Disponible");
    assert_eq!(libre.lignes[0].0, "Toyota Corolla 2022 est disponible");
    let inconnue = app.statut_voiture(99, t, t, t);
    assert_eq!(inconnue.libelle, "Inconnue");
    assert!(inconnue.badges.is_empty());
}

#[test]
fn resume_d_un_contrat() {
    let c = contrat(1, 2, "2026-06-01", "2026-06-04", 280000, 500000, "Actif");
    assert_eq!(
        App::contrat_resume(&c, "En cours :"),
        "En cours : IAM-2026-0001 | 01/06/2026 au 04/06/2026 | Client 1 | reste 3400 DA"
    );
}

#[test]
fn liste_filtree_des_contrats() {
    let t = jour(2026, 6, 2);
    let mut app = app_avec(
        vec![
            contrat(1, 2, "2026-06-01", "2026-06-04", 100, 0, "Actif"),
            contrat(2, 2, "2026-07-01", "2026-07-04", 100, 0, "Actif"),
            contrat(3, 1, "2026-05-01", "2026-05-04", 100, 0, "Terminé"),
            contrat(4, 1, "2025-05-01", "2025-05-04", 100, 0, "Annulé"),
        ],
        t,
    );
    assert_eq!(app.lignes_contrats_le(t), vec![3, 2, 1, 0]);
    app.liste.statut = 1;
    assert_eq!(app.lignes_contrats_le(t), vec![0]);
    app.liste.statut = 4;
    assert_eq!(app.lignes_contrats_le(t), vec![1]);
    app.liste.statut = 0;
    app.liste.filter_mois = 5;
    assert_eq!(app.lignes_contrats_le(t), vec![3, 2]);
    app.liste.filter_annee = " 2025 ".to_string();
    assert_eq!(app.lignes_contrats_le(t), vec![3]);
    app.liste.filter_mois = 0;
    app.liste.filter_annee = String::new();
    app.liste.recherche = "CLIENT 2".to_string();
    assert_eq!(app.lignes_contrats_le(t), vec![1]);
}

#[test]
fn terminer_annuler_supprimer() {
    let t = jour(2026, 6, 2);
    let mut app = app_avec(
        vec![
            contrat(1, 2, "2026-06-01", "2026-06-04", 100, 0, "Actif"),
            contrat(2, 3, "2026-06-01", "2026-06-04", 100, 0, "Actif"),
        ],
        t,
    );
    app.terminer_contrat(0);
    assert_eq!(app.contrats[0].statut, "Terminé");
    app.annuler_contrat(1);
    assert_eq!(app.contrats[1].statut, "Annulé");
    app.liste.suppr = Some(0);
    app.supprimer_contrat(0);
    assert_eq!(app.contrats.len(), 1);
    assert_eq!(app.contrats[0].id, 2);
    assert_eq!(app.liste.suppr, None);
    let (_, libelle) = app.statut_liste_de(&app.contrats[0]);
    assert_eq!(libelle, "Annulé");
}

#[test]
fn livraison_aeroport() {
    assert!(iam_business::liste::est_aeroport("Livraison à l'AÉROPORT"));
    assert!(iam_business::liste::est_aeroport("aero"));
    assert!(!iam_business::liste::est_aeroport("agence"));
}

#[test]
fn contrat_en_edition_retire_de_la_liste() {
    let t = jour(2026, 5, 30);
    let mut app = app_avec(vec![contrat(1, 2, "2026-06-02", "2026-06-06", 100, 0, "Actif")], t);
    remplir(&mut app, 2, "01/06/2026", "04/06/2026");
    app.formulaire.en_edition = Some(5);
    app.formulaire.client = " ".to_string();
    assert_eq!(app.refus_enregistrement(t), Some("Le nom du client est obligatoire."));
    assert!(!app.enregistrer_contrat(t));
    assert_eq!(app.formulaire.msg, "Le nom du client est obligatoire.");
    assert_eq!(app.formulaire.en_edition, Some(5));
    assert_eq!(app.contrats.len(), 1);
    // hors liste, aucun contrat n'est mis à part : la voiture 2 est prise
    remplir(&mut app, 2, "01/06/2026", "04/06/2026");
    assert_eq!(app.refus_enregistrement(t), Some("Ce véhicule est déjà loué sur cette période !"));
    assert!(!app.enregistrer_contrat(t));
    assert_eq!(app.formulaire.msg, "Ce véhicule est déjà loué sur cette période !");
    // une saisie acceptée n'a pas de refus
    app.formulaire.en_edition = None;
    remplir(&mut app, 3, "01/06/2026", "04/06/2026");
    assert_eq!(app.refus_enregistrement(t), None);
}

#[test]
fn numeros_distincts_apres_enregistrements() {
    let t = jour(2026, 5, 30);
    let mut app = app_avec(vec![], t);
    for (v, num) in [(1usize, ""), (2, "A-1"), (3, " a-1 "), (3, "A-1")] {
        remplir(&mut app, v, "01/06/2026", "04/06/2026");
        app.formulaire.numero = num.to_string();
        app.enregistrer_contrat(t);
    }
    let nums: Vec<&str> = app.contrats.iter().map(|c| c.numero.as_str()).collect();
    assert_eq!(nums, vec!["IAM-2026-0001", "A-1", "a-1"]);
    assert_eq!(app.formulaire.msg, "Ce numéro de contrat existe déjà.");
}
