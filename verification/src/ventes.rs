//! Voitures à vendre : ajout, vente, annulation, retrait, statistiques et
//! recherche.
use vstd::prelude::*;
use vstd::string::*;
use crate::date::{annee_mois, Date, date_ecrite, format_iso, jour_valide, stocker_date,
    annee_et_mois};
use crate::modeles::{VoitureVente, max_ident, prochain_identifiant, sans_ident, retirer_ident,
    rang_ident, absent, chercher_ident, lemme_rang_unique, benefice_vente};
use crate::montant::{montant_lu, lire_montant};
use crate::nombre::{lecture_naturel, lire_u32, ecriture_entier, entier_en_texte};
use crate::texte::{rogne, rogner, est_blanc, est_blanc_texte, egal, cle_texte, cle_de, correspond,
    correspond_texte, minuscules, en_minuscules};
use crate::agence::{App, FormulaireVente};
use crate::parc::annee_ou;
use crate::formulaire::montant_ou_zero;
use crate::outils::{lemme_filtre_pas, lemme_filtre_vide, somme_bornee, valeurs, additionner};

verus! {

/// Message d'erreur de l'ajout d'une voiture à vendre, ou `None` s'il réussit.
pub open spec fn erreur_ajout_vente(app: App) -> Option<Seq<char>> {
    let f = app.form_vente;
    if est_blanc(f.nom@) {
        Some("Le nom/modèle est obligatoire."@)
    } else if est_blanc(f.plaque@) {
        Some("La plaque est obligatoire."@)
    } else if est_blanc(f.chassis@) {
        Some("Le numéro de châssis est obligatoire."@)
    } else if exists|k: int|
        0 <= k < app.ventes@.len() && cle_texte((#[trigger] app.ventes@[k]).num_chassis@)
            == cle_texte(f.chassis@) {
        Some("Une voiture avec ce numéro de châssis existe déjà."@)
    } else if !(montant_lu(rogne(f.prix_demande@)) matches Some(p) && p >= 0) {
        Some("Prix demandé invalide."@)
    } else {
        None
    }
}

/// La fiche de vente ajoutée à partir du formulaire.
pub open spec fn vente_saisie(v: VoitureVente, app: App) -> bool {
    let f = app.form_vente;
    &&& v.id == max_ident(app.ventes@) + 1
    &&& v.nom@ == rogne(f.nom@)
    &&& v.plaque@ == rogne(f.plaque@)
    &&& v.num_chassis@ == rogne(f.chassis@)
    &&& v.num_immat@ == rogne(f.immat@)
    &&& v.annee == annee_ou(f.annee@, 2020)
    &&& v.prix_achat == montant_ou_zero(f.prix_achat@)
    &&& v.prix_demande == montant_lu(rogne(f.prix_demande@))->0
    &&& v.prix_vendu == 0
    &&& !v.vendu
    &&& v.date_vente@.len() == 0
    &&& v.notes@ == rogne(f.notes@)
}

fn montant_ou_zero_de(s: &str) -> (r: i64)
    ensures
        r == montant_ou_zero(s@),
{
    match lire_montant(rogner(s).as_str()) {
        Some(x) => x,
        None => 0,
    }
}

fn annee_ou_de(s: &str, defaut: u32) -> (r: u32)
    ensures
        r == annee_ou(s@, defaut),
{
    match lire_u32(rogner(s).as_str()) {
        Some(v) => v,
        None => defaut,
    }
}

/// Les ventes d'une suite qui sont conclues.
pub open spec fn vendues(s: Seq<VoitureVente>) -> Seq<VoitureVente> {
    s.filter(est_vendue())
}

/// La voiture est vendue.
pub open spec fn est_vendue() -> spec_fn(VoitureVente) -> bool {
    |v: VoitureVente| v.vendu
}

/// Ventes conclues dont le prix d'achat est connu.
pub open spec fn avec_benefice() -> spec_fn(VoitureVente) -> bool {
    |v: VoitureVente| v.vendu && v.prix_achat > 0
}

/// La fiche correspond à la recherche (nom, plaque ou châssis).
pub open spec fn vente_trouvee(q: Seq<char>) -> spec_fn(VoitureVente) -> bool {
    |v: VoitureVente|
        q.len() == 0 || correspond(v.nom@, q) || correspond(v.plaque@, q) || correspond(
            v.num_chassis@,
            q,
        )
}

/// Effet de l'ajout de la voiture à vendre saisie, `annee` étant l'année en cours.
pub open spec fn vente_ajoutee(avant: App, apres: App, annee: int, sauver: bool) -> bool {
    &&& sauver == (erreur_ajout_vente(avant) is None)
    &&& match erreur_ajout_vente(avant) {
        Some(m) => {
            &&& apres.form_vente.msg@ == m
            &&& apres.form_vente == (FormulaireVente {
                msg: apres.form_vente.msg,
                ok: false,
                ..avant.form_vente
            })
            &&& apres == (App { form_vente: apres.form_vente, ..avant })
        },
        None => {
            let f = avant.form_vente;
            let n = avant.ventes@.len();
            let g = apres.form_vente;
            &&& apres.ventes@.len() == n + 1
            &&& apres.ventes@.take(n as int) == avant.ventes@
            &&& vente_saisie(apres.ventes@[n as int], avant)
            &&& g.msg@ == "\""@ + rogne(f.nom@) + "\" ajoutée à la liste de ventes."@
            &&& g.ok
            &&& g.nom@.len() == 0 && g.plaque@.len() == 0 && g.chassis@.len() == 0
            &&& g.immat@.len() == 0 && g.prix_achat@.len() == 0
            &&& g.prix_demande@.len() == 0 && g.notes@.len() == 0
            &&& g.annee@ == ecriture_entier(annee)
            &&& g == (FormulaireVente {
                msg: g.msg,
                ok: true,
                nom: g.nom,
                plaque: g.plaque,
                chassis: g.chassis,
                immat: g.immat,
                prix_achat: g.prix_achat,
                prix_demande: g.prix_demande,
                notes: g.notes,
                annee: g.annee,
                ..f
            })
            &&& apres == (App {
                ventes: apres.ventes,
                form_vente: g,
                ..avant
            })
        },
    }
}

/// Effet du marquage comme vendue, le jour `t`, de la voiture `id`.
pub open spec fn vente_marquee(avant: App, apres: App, id: u64, t: int) -> bool {
    &&& apres.ventes@.len() == avant.ventes@.len()
    &&& absent(avant.ventes@, id) ==> apres.ventes@ == avant.ventes@
    &&& forall|k: int|
        rang_ident(avant.ventes@, id, k) ==> {
            let v = apres.ventes@[k];
            let a = avant.ventes@[k];
            &&& v == (VoitureVente {
                vendu: true,
                prix_vendu: v.prix_vendu,
                date_vente: v.date_vente,
                ..a
            })
            &&& v.prix_vendu == montant_ou_zero(avant.form_vente.prix_vendu_input@)
            &&& v.date_vente@ == date_ecrite(t, format_iso())
            &&& forall|j: int|
                0 <= j < avant.ventes@.len() && j != k ==> apres.ventes@[j]
                    == avant.ventes@[j]
        }
    &&& apres.form_vente.prix_vendu_input@.len() == 0
    &&& apres == (App {
        ventes: apres.ventes,
        form_vente: FormulaireVente {
            marquer_vendu: None,
            prix_vendu_input: apres.form_vente.prix_vendu_input,
            ..avant.form_vente
        },
        ..avant
    })
}

impl App {
    /// Ajoute la voiture saisie à la liste des ventes ; `annee` est l'année
    /// en cours, remise dans le formulaire. Rend vrai si la liste a changé.
    pub fn ajouter_vente_voiture_annee(&mut self, annee: i32) -> (sauver: bool)
        requires
            max_ident(old(self).ventes@) < u64::MAX,
        ensures
            vente_ajoutee(*old(self), *final(self), annee as int, sauver),
    {
        let ghost avant = *self;
        if est_blanc_texte(self.form_vente.nom.as_str()) {
            return self.erreur_vente("Le nom/modèle est obligatoire.");
        }
        if est_blanc_texte(self.form_vente.plaque.as_str()) {
            return self.erreur_vente("La plaque est obligatoire.");
        }
        if est_blanc_texte(self.form_vente.chassis.as_str()) {
            return self.erreur_vente("Le numéro de châssis est obligatoire.");
        }
        let cle = cle_de(self.form_vente.chassis.as_str());
        let mut i: usize = 0;
        while i < self.ventes.len()
            invariant
                0 <= i <= self.ventes.len(),
                *self == avant,
                avant == *old(self),
                cle@ == cle_texte(avant.form_vente.chassis@),
                !est_blanc(avant.form_vente.nom@),
                !est_blanc(avant.form_vente.plaque@),
                !est_blanc(avant.form_vente.chassis@),
                forall|k: int|
                    0 <= k < i ==> cle_texte((#[trigger] avant.ventes@[k]).num_chassis@) != cle@,
            decreases self.ventes.len() - i,
        {
            let c = cle_de(self.ventes[i].num_chassis.as_str());
            if egal(c.as_str(), cle.as_str()) {
                assert(cle_texte(avant.ventes@[i as int].num_chassis@) == cle_texte(
                    avant.form_vente.chassis@,
                ));
                return self.erreur_vente("Une voiture avec ce numéro de châssis existe déjà.");
            }
            i = i + 1;
        }
        let prix_demande = match lire_montant(rogner(self.form_vente.prix_demande.as_str()).as_str()) {
            Some(p) => {
                if p >= 0 {
                    p
                } else {
                    return self.erreur_vente("Prix demandé invalide.");
                }
            },
            None => {
                return self.erreur_vente("Prix demandé invalide.");
            },
        };
        let v = VoitureVente {
            id: prochain_identifiant(&self.ventes),
            nom: rogner(self.form_vente.nom.as_str()),
            plaque: rogner(self.form_vente.plaque.as_str()),
            num_chassis: rogner(self.form_vente.chassis.as_str()),
            num_immat: rogner(self.form_vente.immat.as_str()),
            annee: annee_ou_de(self.form_vente.annee.as_str(), 2020),
            prix_achat: montant_ou_zero_de(self.form_vente.prix_achat.as_str()),
            prix_demande,
            prix_vendu: 0,
            vendu: false,
            date_vente: String::new(),
            notes: rogner(self.form_vente.notes.as_str()),
        };
        let mut msg = String::from_str("\"");
        msg.append(v.nom.as_str());
        msg.append("\" ajoutée à la liste de ventes.");
        self.ventes.push(v);
        assert(self.ventes@.take(avant.ventes@.len() as int) =~= avant.ventes@);
        self.form_vente.msg = msg;
        self.form_vente.ok = true;
        self.form_vente.nom = String::new();
        self.form_vente.plaque = String::new();
        self.form_vente.chassis = String::new();
        self.form_vente.immat = String::new();
        self.form_vente.prix_achat = String::new();
        self.form_vente.prix_demande = String::new();
        self.form_vente.notes = String::new();
        self.form_vente.annee = entier_en_texte(annee as i128);
        true
    }

    fn erreur_vente(&mut self, m: &str) -> (r: bool)
        ensures
            !r,
            final(self).form_vente.msg@ == m@,
            final(self).form_vente == (FormulaireVente {
                msg: final(self).form_vente.msg,
                ok: false,
                ..old(self).form_vente
            }),
            *final(self) == (App { form_vente: final(self).form_vente, ..*old(self) }),
    {
        self.form_vente.msg = String::from_str(m);
        self.form_vente.ok = false;
        false
    }

    /// Ajoute la voiture saisie le jour `t` à la liste des ventes (l'année en cours est celle de `t`).
    pub fn ajouter_vente_voiture(&mut self, t: Date) -> (sauver: bool)
        requires
            jour_valide(t.jour as int),
            max_ident(old(self).ventes@) < u64::MAX,
        ensures
            vente_ajoutee(*old(self), *final(self), annee_mois(t.jour as int).0, sauver),
    {
        let (a, _) = annee_et_mois(t);
        self.ajouter_vente_voiture_annee(a)
    }

    /// Marque vendue, le jour `t`, la première voiture d'identifiant `id`, au
    /// prix saisi (zéro s'il ne se lit pas), puis ferme la confirmation.
    pub fn marquer_vendue(&mut self, id: u64, t: Date)
        requires
            jour_valide(t.jour as int),
        ensures
            vente_marquee(*old(self), *final(self), id, t.jour as int),
    {
        let prix = montant_ou_zero_de(self.form_vente.prix_vendu_input.as_str());
        let date = stocker_date(t);
        match chercher_ident(&self.ventes, id) {
            Some(k) => {
                let a = &self.ventes[k];
                let v = VoitureVente { vendu: true, prix_vendu: prix, date_vente: date, ..a.copie() };
                self.ventes.set(k, v);
                proof {
                    assert forall|k2: int| rang_ident(old(self).ventes@, id, k2) implies k2 == k by {
                        lemme_rang_unique(old(self).ventes@, id, k2, k as int);
                    }
                }
            },
            None => {},
        }
        self.form_vente.marquer_vendu = None;
        self.form_vente.prix_vendu_input = String::new();
    }

    /// Annule la vente de la première voiture d'identifiant `id` : elle
    /// redevient à vendre, sans prix ni date de vente.
    pub fn annuler_vente(&mut self, id: u64)
        ensures
            final(self).ventes@.len() == old(self).ventes@.len(),
            absent(old(self).ventes@, id) ==> final(self).ventes@ == old(self).ventes@,
            forall|k: int|
                rang_ident(old(self).ventes@, id, k) ==> {
                    let v = final(self).ventes@[k];
                    &&& v == (VoitureVente {
                        vendu: false,
                        prix_vendu: 0,
                        date_vente: v.date_vente,
                        ..old(self).ventes@[k]
                    })
                    &&& v.date_vente@.len() == 0
                    &&& forall|j: int|
                        0 <= j < old(self).ventes@.len() && j != k ==> final(self).ventes@[j]
                            == old(self).ventes@[j]
                },
            *final(self) == (App { ventes: final(self).ventes, ..*old(self) }),
    {
        match chercher_ident(&self.ventes, id) {
            Some(k) => {
                let a = &self.ventes[k];
                let v = VoitureVente {
                    vendu: false,
                    prix_vendu: 0,
                    date_vente: String::new(),
                    ..a.copie()
                };
                self.ventes.set(k, v);
                proof {
                    assert forall|k2: int| rang_ident(old(self).ventes@, id, k2) implies k2 == k by {
                        lemme_rang_unique(old(self).ventes@, id, k2, k as int);
                    }
                }
            },
            None => {},
        }
    }

    /// Retire de la liste les ventes d'identifiant `id` et ferme la confirmation.
    pub fn supprimer_vente(&mut self, id: u64)
        ensures
            final(self).ventes@ == sans_ident(old(self).ventes@, id),
            *final(self) == (App {
                ventes: final(self).ventes,
                form_vente: FormulaireVente { suppr_confirm: None, ..old(self).form_vente },
                ..*old(self)
            }),
    {
        retirer_ident(&mut self.ventes, id);
        self.form_vente.suppr_confirm = None;
    }

    /// Nombre de voitures vendues.
    pub fn nb_vendues(&self) -> (r: usize)
        ensures
            r == vendues(self.ventes@).len(),
    {
        let ghost p = est_vendue();
        let mut n: usize = 0;
        let mut i: usize = 0;
        proof {
            lemme_filtre_vide(self.ventes@, p);
        }
        while i < self.ventes.len()
            invariant
                0 <= i <= self.ventes.len(),
                p == est_vendue(),
                n == self.ventes@.take(i as int).filter(p).len(),
                n <= i,
            decreases self.ventes.len() - i,
        {
            proof {
                lemme_filtre_pas(self.ventes@, p, i as int);
            }
            if self.ventes[i].vendu {
                n = n + 1;
            }
            i = i + 1;
        }
        assert(self.ventes@.take(self.ventes.len() as int) =~= self.ventes@);
        n
    }

    /// Chiffre d'affaires des ventes : somme des prix de vente des voitures
    /// vendues ; `None` si le calcul sort des entiers sur 128 bits.
    pub fn ca_ventes(&self) -> (r: Option<i128>)
        ensures
            crate::agence::valeur_opt(r) == somme_bornee(
                vendues(self.ventes@).map_values(|v: VoitureVente| v.prix_vendu as int),
            ),
    {
        let ghost p = est_vendue();
        let ghost f = |v: VoitureVente| v.prix_vendu as int;
        let mut v: Vec<i128> = Vec::new();
        let mut i: usize = 0;
        proof {
            lemme_filtre_vide(self.ventes@, p);
            assert(valeurs(v@) =~= self.ventes@.take(0).filter(p).map_values(f));
        }
        while i < self.ventes.len()
            invariant
                0 <= i <= self.ventes.len(),
                p == est_vendue(),
                f == (|v: VoitureVente| v.prix_vendu as int),
                valeurs(v@) == self.ventes@.take(i as int).filter(p).map_values(f),
            decreases self.ventes.len() - i,
        {
            proof {
                lemme_filtre_pas(self.ventes@, p, i as int);
            }
            if self.ventes[i].vendu {
                let ghost avant = v@;
                v.push(self.ventes[i].prix_vendu as i128);
                proof {
                    assert(valeurs(v@) =~= valeurs(avant).push(self.ventes@[i as int].prix_vendu as int));
                    assert(self.ventes@.take(i as int).filter(p).push(self.ventes@[i as int]).map_values(f)
                        =~= self.ventes@.take(i as int).filter(p).map_values(f).push(
                        f(self.ventes@[i as int]),
                    ));
                }
            }
            i = i + 1;
        }
        assert(self.ventes@.take(self.ventes.len() as int) =~= self.ventes@);
        additionner(&v)
    }

    /// Bénéfice total des ventes conclues dont le prix d'achat est connu ;
    /// `None` si le calcul sort des entiers sur 128 bits.
    pub fn benefice_total(&self) -> (r: Option<i128>)
        ensures
            crate::agence::valeur_opt(r) == somme_bornee(
                self.ventes@.filter(avec_benefice()).map_values(|v: VoitureVente| benefice_vente(v)),
            ),
    {
        let ghost p = avec_benefice();
        let ghost f = |v: VoitureVente| benefice_vente(v);
        let mut v: Vec<i128> = Vec::new();
        let mut i: usize = 0;
        proof {
            lemme_filtre_vide(self.ventes@, p);
            assert(valeurs(v@) =~= self.ventes@.take(0).filter(p).map_values(f));
        }
        while i < self.ventes.len()
            invariant
                0 <= i <= self.ventes.len(),
                p == avec_benefice(),
                f == (|v: VoitureVente| benefice_vente(v)),
                valeurs(v@) == self.ventes@.take(i as int).filter(p).map_values(f),
            decreases self.ventes.len() - i,
        {
            proof {
                lemme_filtre_pas(self.ventes@, p, i as int);
            }
            if self.ventes[i].vendu && self.ventes[i].prix_achat > 0 {
                let ghost avant = v@;
                v.push(self.ventes[i].benefice());
                proof {
                    assert(valeurs(v@) =~= valeurs(avant).push(benefice_vente(self.ventes@[i as int])));
                    assert(self.ventes@.take(i as int).filter(p).push(self.ventes@[i as int]).map_values(f)
                        =~= self.ventes@.take(i as int).filter(p).map_values(f).push(
                        f(self.ventes@[i as int]),
                    ));
                }
            }
            i = i + 1;
        }
        assert(self.ventes@.take(self.ventes.len() as int) =~= self.ventes@);
        additionner(&v)
    }

    /// Fiches de vente qui correspondent à la recherche courante.
    pub fn ventes_filtrees(&self) -> (r: Vec<VoitureVente>)
        ensures
            r@ == self.ventes@.filter(vente_trouvee(minuscules(self.form_vente.recherche@))),
    {
        let q = en_minuscules(self.form_vente.recherche.as_str());
        let ghost p = vente_trouvee(q@);
        let vide = q.as_str().unicode_len() == 0;
        let mut r: Vec<VoitureVente> = Vec::new();
        let mut i: usize = 0;
        proof {
            lemme_filtre_vide(self.ventes@, p);
        }
        while i < self.ventes.len()
            invariant
                0 <= i <= self.ventes.len(),
                p == vente_trouvee(q@),
                vide == (q@.len() == 0),
                r@ == self.ventes@.take(i as int).filter(p),
            decreases self.ventes.len() - i,
        {
            proof {
                lemme_filtre_pas(self.ventes@, p, i as int);
            }
            let v = &self.ventes[i];
            if vide || correspond_texte(v.nom.as_str(), q.as_str()) || correspond_texte(
                v.plaque.as_str(),
                q.as_str(),
            ) || correspond_texte(v.num_chassis.as_str(), q.as_str()) {
                r.push(v.copie());
            }
            i = i + 1;
        }
        assert(self.ventes@.take(self.ventes.len() as int) =~= self.ventes@);
        r
    }
}

} // verus!
