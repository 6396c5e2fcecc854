//! Gestion d'une agence de location de voitures : contrats, parc, ventes,
//! réparations et caisse, avec leurs règles vérifiées.

pub mod texte;
pub mod nombre;
pub mod montant;
pub mod date;
pub mod theme;
pub mod outils;
pub mod modeles;
pub mod agence;
pub mod statut;
pub mod formulaire;
pub mod lois;
pub mod parc;
pub mod ventes;
pub mod caisse;
pub mod reparations;
pub mod dispo;
pub mod demarrage;
pub mod pagination;
pub mod tableau;
pub mod fenetres;
pub mod liste;
pub mod impayes;
pub mod saisie;
pub mod relecture;
pub mod proprietes;
pub mod filtres;
