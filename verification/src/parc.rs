//! Le parc de voitures : parc par défaut, ajout, modification, retrait et
//! recherche.
use vstd::prelude::*;
use vstd::string::*;
use crate::modeles::{Voiture, max_ident, prochain_identifiant, sans_ident, retirer_ident};
use crate::montant::{montant_lu, lire_montant, ecriture_decimale, texte_decimal};
use crate::nombre::{lecture_naturel, lire_u32, ecriture_naturel, naturel_en_texte, ecriture_entier,
    entier_en_texte};
use crate::texte::{rogne, rogner, est_blanc, est_blanc_texte, egal, cle_texte, cle_de, correspond,
    correspond_texte, minuscules, en_minuscules};
use crate::agence::{App, FormulaireVoiture};
use crate::date::{jour_valide, annee_mois};
use crate::theme::{Rgb, ambre, vert, couleur_ambre, couleur_vert};
use crate::tableau::rangs_croissants;
use crate::outils::{lemme_filtre_pas, lemme_filtre_vide};

verus! {

/// Le parc installé quand aucune voiture n'est enregistrée : trois voitures en
/// bon état.
pub open spec fn parc_defaut(r: Seq<Voiture>) -> bool {
    &&& r.len() == 3
    &&& r[0].id == 1 && r[0].modele@ == "Toyota Corolla 2022"@ && r[0].plaque@ == "100-IAM-01"@
        && r[0].categorie@ == "Berline"@ && r[0].couleur@ == "Blanc"@ && r[0].annee == 2022
        && r[0].tarif_jour == 350000 && r[0].etat@ == "Bon état"@
    &&& r[1].id == 2 && r[1].modele@ == "Renault Clio 2021"@ && r[1].plaque@ == "100-IAM-02"@
        && r[1].categorie@ == "Citadine"@ && r[1].couleur@ == "Bleu"@ && r[1].annee == 2021
        && r[1].tarif_jour == 280000 && r[1].etat@ == "Bon état"@
    &&& r[2].id == 3 && r[2].modele@ == "Dacia Duster 2023"@ && r[2].plaque@ == "100-IAM-03"@
        && r[2].categorie@ == "SUV"@ && r[2].couleur@ == "Gris"@ && r[2].annee == 2023
        && r[2].tarif_jour == 450000 && r[2].etat@ == "Bon état"@
}

/// Le parc installé quand aucune voiture n'est enregistrée.
pub fn voitures_defaut() -> (r: Vec<Voiture>)
    ensures
        parc_defaut(r@),
{
    let mut v: Vec<Voiture> = Vec::new();
    v.push(
        Voiture {
            id: 1,
            modele: String::from_str("Toyota Corolla 2022"),
            plaque: String::from_str("100-IAM-01"),
            categorie: String::from_str("Berline"),
            couleur: String::from_str("Blanc"),
            annee: 2022,
            tarif_jour: 350000,
            etat: String::from_str("Bon état"),
        },
    );
    v.push(
        Voiture {
            id: 2,
            modele: String::from_str("Renault Clio 2021"),
            plaque: String::from_str("100-IAM-02"),
            categorie: String::from_str("Citadine"),
            couleur: String::from_str("Bleu"),
            annee: 2021,
            tarif_jour: 280000,
            etat: String::from_str("Bon état"),
        },
    );
    v.push(
        Voiture {
            id: 3,
            modele: String::from_str("Dacia Duster 2023"),
            plaque: String::from_str("100-IAM-03"),
            categorie: String::from_str("SUV"),
            couleur: String::from_str("Gris"),
            annee: 2023,
            tarif_jour: 450000,
            etat: String::from_str("Bon état"),
        },
    );
    v
}

/// Message d'erreur de l'ajout d'une voiture, ou `None` s'il réussit.
pub open spec fn erreur_ajout_voiture(app: App) -> Option<Seq<char>> {
    let f = app.form_voiture;
    if est_blanc(f.modele@) {
        Some("Le modèle est obligatoire."@)
    } else if est_blanc(f.plaque@) {
        Some("La plaque est obligatoire."@)
    } else if exists|k: int|
        0 <= k < app.voitures@.len() && cle_texte((#[trigger] app.voitures@[k]).plaque@) == cle_texte(
            f.plaque@,
        ) {
        Some("Une voiture avec cette plaque existe déjà."@)
    } else if !(montant_lu(rogne(f.tarif@)) matches Some(t) && t > 0) {
        Some("Tarif journalier invalide."@)
    } else {
        None
    }
}

/// Année saisie, ou `defaut` si elle ne se lit pas.
pub open spec fn annee_ou(s: Seq<char>, defaut: u32) -> u32 {
    match lecture_naturel(rogne(s)) {
        Some(v) => if v <= u32::MAX {
            v as u32
        } else {
            defaut
        },
        None => defaut,
    }
}

fn annee_ou_exec(s: &str, defaut: u32) -> (r: u32)
    ensures
        r == annee_ou(s@, defaut),
{
    let t = rogner(s);
    match lire_u32(t.as_str()) {
        Some(v) => v,
        None => defaut,
    }
}

/// La voiture ajoutée à partir du formulaire.
pub open spec fn voiture_saisie(v: Voiture, app: App) -> bool {
    let f = app.form_voiture;
    &&& v.id == max_ident(app.voitures@) + 1
    &&& v.modele@ == rogne(f.modele@)
    &&& v.plaque@ == rogne(f.plaque@)
    &&& v.categorie@ == f.cat@
    &&& v.couleur@ == rogne(f.couleur@)
    &&& v.annee == annee_ou(f.annee@, 2024)
    &&& v.tarif_jour == montant_lu(rogne(f.tarif@))->0
    &&& v.etat@ == (if f.edit_etat@.len() == 0 {
        "Bon état"@
    } else {
        f.edit_etat@
    })
}

/// Effet de l'ajout de la voiture saisie, `annee` étant l'année en cours.
pub open spec fn voiture_ajoutee(avant: App, apres: App, annee: int, sauver: bool) -> bool {
    &&& sauver == (erreur_ajout_voiture(avant) is None)
    &&& match erreur_ajout_voiture(avant) {
        Some(m) => {
            &&& apres.form_voiture.msg@ == m
            &&& apres.form_voiture == (FormulaireVoiture {
                msg: apres.form_voiture.msg,
                ok: false,
                ..avant.form_voiture
            })
            &&& apres == (App { form_voiture: apres.form_voiture, ..avant })
        },
        None => {
            let f = avant.form_voiture;
            let n = avant.voitures@.len();
            &&& apres.voitures@.len() == n + 1
            &&& apres.voitures@.take(n as int) == avant.voitures@
            &&& voiture_saisie(apres.voitures@[n as int], avant)
            &&& apres.form_voiture.msg@ == "'"@ + rogne(f.modele@) + "' ajouté avec succès."@
            &&& apres.form_voiture.ok
            &&& apres.form_voiture.modele@.len() == 0
            &&& apres.form_voiture.plaque@.len() == 0
            &&& apres.form_voiture.couleur@.len() == 0
            &&& apres.form_voiture.tarif@ == "3000"@
            &&& apres.form_voiture.annee@ == ecriture_entier(annee)
            &&& apres.form_voiture.edit_etat@ == "Bon état"@
            &&& apres.form_voiture == (FormulaireVoiture {
                msg: apres.form_voiture.msg,
                ok: true,
                modele: apres.form_voiture.modele,
                plaque: apres.form_voiture.plaque,
                couleur: apres.form_voiture.couleur,
                tarif: apres.form_voiture.tarif,
                annee: apres.form_voiture.annee,
                edit_etat: apres.form_voiture.edit_etat,
                ..f
            })
            &&& apres == (App {
                voitures: apres.voitures,
                form_voiture: apres.form_voiture,
                ..avant
            })
        },
    }
}

impl App {
    /// Ajoute la voiture saisie au parc ; `annee` est l'année en cours, remise
    /// dans le formulaire. Rend vrai si le parc a changé.
    pub fn ajouter_voiture_annee(&mut self, annee: i32) -> (sauver: bool)
        requires
            max_ident(old(self).voitures@) < u64::MAX,
        ensures
            voiture_ajoutee(*old(self), *final(self), annee as int, sauver),
    {
        let ghost avant = *self;
        if est_blanc_texte(self.form_voiture.modele.as_str()) {
            return self.erreur_voiture("Le modèle est obligatoire.");
        }
        if est_blanc_texte(self.form_voiture.plaque.as_str()) {
            return self.erreur_voiture("La plaque est obligatoire.");
        }
        let cle = cle_de(self.form_voiture.plaque.as_str());
        let mut i: usize = 0;
        while i < self.voitures.len()
            invariant
                0 <= i <= self.voitures.len(),
                *self == avant,
                avant == *old(self),
                cle@ == cle_texte(avant.form_voiture.plaque@),
                !est_blanc(avant.form_voiture.modele@),
                !est_blanc(avant.form_voiture.plaque@),
                forall|k: int|
                    0 <= k < i ==> cle_texte((#[trigger] avant.voitures@[k]).plaque@) != cle@,
            decreases self.voitures.len() - i,
        {
            let c = cle_de(self.voitures[i].plaque.as_str());
            if egal(c.as_str(), cle.as_str()) {
                assert(cle_texte(avant.voitures@[i as int].plaque@) == cle_texte(
                    avant.form_voiture.plaque@,
                ));
                return self.erreur_voiture("Une voiture avec cette plaque existe déjà.");
            }
            i = i + 1;
        }
        let tt = rogner(self.form_voiture.tarif.as_str());
        let tarif = match lire_montant(tt.as_str()) {
            Some(t) => {
                if t > 0 {
                    t
                } else {
                    return self.erreur_voiture("Tarif journalier invalide.");
                }
            },
            None => {
                return self.erreur_voiture("Tarif journalier invalide.");
            },
        };
        let annee_v = annee_ou_exec(self.form_voiture.annee.as_str(), 2024);
        let etat = if self.form_voiture.edit_etat.as_str().unicode_len() == 0 {
            String::from_str("Bon état")
        } else {
            self.form_voiture.edit_etat.clone()
        };
        let v = Voiture {
            id: prochain_identifiant(&self.voitures),
            modele: rogner(self.form_voiture.modele.as_str()),
            plaque: rogner(self.form_voiture.plaque.as_str()),
            categorie: self.form_voiture.cat.clone(),
            couleur: rogner(self.form_voiture.couleur.as_str()),
            annee: annee_v,
            tarif_jour: tarif,
            etat,
        };
        let mut msg = String::from_str("'");
        msg.append(v.modele.as_str());
        msg.append("' ajouté avec succès.");
        self.voitures.push(v);
        assert(self.voitures@.take(avant.voitures@.len() as int) =~= avant.voitures@);
        self.form_voiture.msg = msg;
        self.form_voiture.ok = true;
        self.form_voiture.modele = String::new();
        self.form_voiture.plaque = String::new();
        self.form_voiture.couleur = String::new();
        self.form_voiture.tarif = String::from_str("3000");
        self.form_voiture.annee = entier_en_texte(annee as i128);
        self.form_voiture.edit_etat = String::from_str("Bon état");
        true
    }

    fn erreur_voiture(&mut self, m: &str) -> (r: bool)
        ensures
            !r,
            final(self).form_voiture.msg@ == m@,
            final(self).form_voiture == (FormulaireVoiture {
                msg: final(self).form_voiture.msg,
                ok: false,
                ..old(self).form_voiture
            }),
            *final(self) == (App { form_voiture: final(self).form_voiture, ..*old(self) }),
    {
        self.form_voiture.msg = String::from_str(m);
        self.form_voiture.ok = false;
        false
    }

    /// Ajoute la voiture saisie le jour `t` (l'année en cours est celle de `t`).
    pub fn ajouter_voiture(&mut self, t: crate::date::Date) -> (sauver: bool)
        requires
            jour_valide(t.jour as int),
            max_ident(old(self).voitures@) < u64::MAX,
        ensures
            voiture_ajoutee(*old(self), *final(self), annee_mois(t.jour as int).0, sauver),
    {
        let (a, _) = crate::date::annee_et_mois(t);
        self.ajouter_voiture_annee(a)
    }

    /// Retire du parc les voitures d'identifiant `id`.
    pub fn supprimer_voiture(&mut self, id: u64)
        ensures
            final(self).voitures@ == sans_ident(old(self).voitures@, id),
            final(self).form_voiture.suppr_confirm is None,
            *final(self) == (App {
                voitures: final(self).voitures,
                form_voiture: FormulaireVoiture {
                    suppr_confirm: None,
                    ..old(self).form_voiture
                },
                ..*old(self)
            }),
    {
        retirer_ident(&mut self.voitures, id);
        self.form_voiture.suppr_confirm = None;
    }
}


/// Première voiture d'identifiant `id`, par son rang.
pub open spec fn rang_voiture(vs: Seq<Voiture>, id: u64, k: int) -> bool {
    0 <= k < vs.len() && vs[k].id == id && forall|j: int| 0 <= j < k ==> vs[j].id != id
}

/// La voiture après les modifications saisies : chaque champ saisi et
/// valide remplace l'ancien.
pub open spec fn voiture_modifiee(v: Voiture, ancienne: Voiture, f: FormulaireVoiture) -> bool {
    &&& v.id == ancienne.id
    &&& v.modele@ == (if !est_blanc(f.edit_modele@) {
        rogne(f.edit_modele@)
    } else {
        ancienne.modele@
    })
    &&& v.plaque@ == (if !est_blanc(f.edit_plaque@) {
        rogne(f.edit_plaque@)
    } else {
        ancienne.plaque@
    })
    &&& v.annee == (match lecture_naturel(rogne(f.edit_annee@)) {
        Some(a) => if a <= u32::MAX {
            a as u32
        } else {
            ancienne.annee
        },
        None => ancienne.annee,
    })
    &&& v.categorie@ == (if f.edit_cat@.len() != 0 {
        f.edit_cat@
    } else {
        ancienne.categorie@
    })
    &&& v.couleur@ == (if !est_blanc(f.edit_couleur@) {
        rogne(f.edit_couleur@)
    } else {
        ancienne.couleur@
    })
    &&& v.tarif_jour == (match montant_lu(rogne(f.edit_tarif@)) {
        Some(t) => if t > 0 {
            t
        } else {
            ancienne.tarif_jour
        },
        None => ancienne.tarif_jour,
    })
    &&& v.etat@ == (if f.edit_etat@.len() != 0 {
        f.edit_etat@
    } else {
        ancienne.etat@
    })
}

fn choisir(saisie: &String, ancien: &String) -> (r: String)
    ensures
        r@ == (if !est_blanc(saisie@) {
            rogne(saisie@)
        } else {
            ancien@
        }),
{
    if !est_blanc_texte(saisie.as_str()) {
        rogner(saisie.as_str())
    } else {
        ancien.clone()
    }
}

fn choisir_non_vide(saisie: &String, ancien: &String) -> (r: String)
    ensures
        r@ == (if saisie@.len() != 0 {
            saisie@
        } else {
            ancien@
        }),
{
    if saisie.as_str().unicode_len() != 0 {
        saisie.clone()
    } else {
        ancien.clone()
    }
}

impl App {
    /// Ouvre la fenêtre de modification de la première voiture d'identifiant
    /// `id`, remplie de ses valeurs ; rien ne change si elle n'existe pas.
    pub fn ouvrir_edition_voiture(&mut self, id: u64)
        ensures
            (forall|k: int| 0 <= k < old(self).voitures@.len() ==> old(self).voitures@[k].id != id)
                ==> *final(self) == *old(self),
            forall|k: int|
                rang_voiture(old(self).voitures@, id, k) ==> {
                    let v = old(self).voitures@[k];
                    let f = final(self).form_voiture;
                    &&& f.edit_id == Some(id)
                    &&& f.edit_modele@ == v.modele@
                    &&& f.edit_plaque@ == v.plaque@
                    &&& f.edit_annee@ == ecriture_naturel(v.annee as nat)
                    &&& f.edit_cat@ == v.categorie@
                    &&& f.edit_couleur@ == v.couleur@
                    &&& f.edit_tarif@ == ecriture_decimale(v.tarif_jour as int)
                    &&& f.edit_etat@ == (if v.etat@.len() == 0 {
                        "Bon état"@
                    } else {
                        v.etat@
                    })
                    &&& f == (FormulaireVoiture {
                        edit_id: f.edit_id,
                        edit_modele: f.edit_modele,
                        edit_plaque: f.edit_plaque,
                        edit_annee: f.edit_annee,
                        edit_cat: f.edit_cat,
                        edit_couleur: f.edit_couleur,
                        edit_tarif: f.edit_tarif,
                        edit_etat: f.edit_etat,
                        ..old(self).form_voiture
                    })
                    &&& *final(self) == (App { form_voiture: f, ..*old(self) })
                },
    {
        let mut i: usize = 0;
        while i < self.voitures.len()
            invariant
                0 <= i <= self.voitures.len(),
                *self == *old(self),
                forall|k: int| 0 <= k < i ==> self.voitures@[k].id != id,
            decreases self.voitures.len() - i,
        {
            if self.voitures[i].id == id {
                let v = &self.voitures[i];
                let modele = v.modele.clone();
                let plaque = v.plaque.clone();
                let annee = naturel_en_texte(v.annee as u128);
                let cat = v.categorie.clone();
                let couleur = v.couleur.clone();
                let tarif = texte_decimal(v.tarif_jour);
                let etat = if v.etat.as_str().unicode_len() == 0 {
                    String::from_str("Bon état")
                } else {
                    v.etat.clone()
                };
                self.form_voiture.edit_id = Some(id);
                self.form_voiture.edit_modele = modele;
                self.form_voiture.edit_plaque = plaque;
                self.form_voiture.edit_annee = annee;
                self.form_voiture.edit_cat = cat;
                self.form_voiture.edit_couleur = couleur;
                self.form_voiture.edit_tarif = tarif;
                self.form_voiture.edit_etat = etat;
                assert forall|k: int| rang_voiture(old(self).voitures@, id, k) implies k == i by {
                    if k < i {
                    } else if k > i {
                        assert(old(self).voitures@[i as int].id == id);
                    }
                }
                return;
            }
            i = i + 1;
        }
    }

    /// Enregistre la modification de la première voiture d'identifiant `id`,
    /// puis ferme la fenêtre. Le parc est à sauvegarder dans tous les cas.
    pub fn enregistrer_edition_voiture(&mut self, id: u64)
        ensures
            final(self).voitures@.len() == old(self).voitures@.len(),
            (forall|k: int| 0 <= k < old(self).voitures@.len() ==> old(self).voitures@[k].id != id)
                ==> final(self).voitures@ == old(self).voitures@,
            forall|k: int|
                rang_voiture(old(self).voitures@, id, k) ==> {
                    &&& voiture_modifiee(
                        final(self).voitures@[k],
                        old(self).voitures@[k],
                        old(self).form_voiture,
                    )
                    &&& forall|j: int|
                        0 <= j < old(self).voitures@.len() && j != k ==> final(self).voitures@[j]
                            == old(self).voitures@[j]
                },
            *final(self) == (App {
                voitures: final(self).voitures,
                form_voiture: FormulaireVoiture { edit_id: None, ..old(self).form_voiture },
                ..*old(self)
            }),
    {
        let mut i: usize = 0;
        while i < self.voitures.len()
            invariant
                0 <= i <= self.voitures.len(),
                *self == *old(self),
                forall|k: int| 0 <= k < i ==> self.voitures@[k].id != id,
            decreases self.voitures.len() - i,
        {
            if self.voitures[i].id == id {
                let f = &self.form_voiture;
                let v = &self.voitures[i];
                let annee = match lire_u32(rogner(f.edit_annee.as_str()).as_str()) {
                    Some(a) => a,
                    None => v.annee,
                };
                let tarif = match lire_montant(rogner(f.edit_tarif.as_str()).as_str()) {
                    Some(t) => if t > 0 {
                        t
                    } else {
                        v.tarif_jour
                    },
                    None => v.tarif_jour,
                };
                let nv = Voiture {
                    id: v.id,
                    modele: choisir(&f.edit_modele, &v.modele),
                    plaque: choisir(&f.edit_plaque, &v.plaque),
                    categorie: choisir_non_vide(&f.edit_cat, &v.categorie),
                    couleur: choisir(&f.edit_couleur, &v.couleur),
                    annee,
                    tarif_jour: tarif,
                    etat: choisir_non_vide(&f.edit_etat, &v.etat),
                };
                assert forall|k: int| rang_voiture(old(self).voitures@, id, k) implies k == i by {
                    if k > i {
                        assert(old(self).voitures@[i as int].id == id);
                    }
                }
                self.voitures.set(i, nv);
                self.form_voiture.edit_id = None;
                return;
            }
            i = i + 1;
        }
        self.form_voiture.edit_id = None;
    }
}


/// La voiture répond à la recherche du parc `q` (déjà en minuscules) :
/// modèle, plaque ou catégorie ; toute voiture répond à une recherche vide.
pub open spec fn repond_parc(q: Seq<char>) -> spec_fn(Voiture) -> bool {
    |v: Voiture|
        q.len() == 0 || correspond(v.modele@, q) || correspond(v.plaque@, q) || correspond(
            v.categorie@,
            q,
        )
}

/// Couleur de l'état d'une voiture : ambre en maintenance, vert sinon.
pub open spec fn couleur_etat(v: Voiture) -> Rgb {
    if v.etat@ == "En maintenance"@ {
        couleur_ambre()
    } else {
        couleur_vert()
    }
}

/// Couleur de l'état d'une voiture.
pub fn couleur_etat_de(v: &Voiture) -> (r: Rgb)
    ensures
        r == couleur_etat(*v),
{
    if egal(v.etat.as_str(), "En maintenance") {
        ambre()
    } else {
        vert()
    }
}

impl App {
    /// Rangs des voitures qui répondent à la recherche du parc (en minuscules),
    /// dans l'ordre du parc.
    pub fn voitures_filtrees(&self) -> (r: Vec<usize>)
        ensures
            r@ == rangs_croissants(self.voitures@, repond_parc(minuscules(self.form_voiture.recherche@))),
    {
        let q = en_minuscules(self.form_voiture.recherche.as_str());
        let ghost p = repond_parc(q@);
        let mut r: Vec<usize> = Vec::new();
        let mut i: usize = 0;
        while i < self.voitures.len()
            invariant
                0 <= i <= self.voitures.len(),
                p == repond_parc(q@),
                r@ == rangs_croissants(self.voitures@.take(i as int), p),
            decreases self.voitures.len() - i,
        {
            let v = &self.voitures[i];
            let qs = q.as_str();
            let garde = qs.unicode_len() == 0 || correspond_texte(v.modele.as_str(), qs)
                || correspond_texte(v.plaque.as_str(), qs) || correspond_texte(v.categorie.as_str(), qs);
            assert(self.voitures@.take(i + 1).drop_last() =~= self.voitures@.take(i as int));
            assert(self.voitures@.take(i + 1).last() == self.voitures@[i as int]);
            if garde {
                r.push(i);
            }
            i = i + 1;
        }
        assert(self.voitures@.take(self.voitures.len() as int) =~= self.voitures@);
        r
    }
}

} // verus!
