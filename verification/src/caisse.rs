//! La caisse : périodes, encaissements, décaissements et soldes.
use vstd::prelude::*;
use vstd::string::*;
use crate::date::{Date, date_saisie, date_ecrite, format_iso, format_jma, jour_valide, parse_date,
    stocker_date, texte_jma, dans_7j, texte_dans_7j, affichage_date, afficher_date};
use crate::modeles::{PeriodeCaisse, Encaissement, Decaissement, Identifie, max_ident,
    prochain_identifiant, sans_ident, retirer_ident, rang_ident, absent, chercher_ident,
    lemme_rang_unique};
use crate::montant::{montant_lu, lire_montant, ecriture_arrondie, texte_arrondi};
use crate::texte::{rogne, rogner, est_blanc, est_blanc_texte};
use crate::agence::{App, FormulaireCaisse, valeur_opt};
use crate::theme::{Rgb, couleur_vert, couleur_rouge_iam, vert, rouge_iam};
use crate::outils::{lemme_filtre_pas, lemme_filtre_vide, somme_bornee, valeurs, additionner};

verus! {

/// Message d'erreur de la création d'une période, ou `None` si elle réussit.
pub open spec fn erreur_periode(f: FormulaireCaisse) -> Option<Seq<char>> {
    if est_blanc(f.new_nom@) {
        Some("Le nom de la période est obligatoire."@)
    } else if date_saisie(f.new_debut@) is None {
        Some("Date de début invalide (JJ/MM/AAAA)."@)
    } else if date_saisie(f.new_fin@) is None {
        Some("Date de fin invalide (JJ/MM/AAAA)."@)
    } else {
        None
    }
}

/// Message d'erreur d'un encaissement, ou `None` s'il est accepté.
pub open spec fn erreur_encaissement(f: FormulaireCaisse) -> Option<Seq<char>> {
    if est_blanc(f.enc_client@) {
        Some("Le nom du client est obligatoire."@)
    } else if date_saisie(f.enc_date@) is None {
        Some("Date invalide (JJ/MM/AAAA)."@)
    } else if !(montant_lu(rogne(f.enc_montant@)) matches Some(v) && v >= 0) {
        Some("Montant invalide."@)
    } else {
        None
    }
}

/// Message d'erreur d'un décaissement, ou `None` s'il est accepté.
pub open spec fn erreur_decaissement(f: FormulaireCaisse) -> Option<Seq<char>> {
    if est_blanc(f.dec_nom@) {
        Some("Le nom est obligatoire."@)
    } else if date_saisie(f.dec_date@) is None {
        Some("Date invalide (JJ/MM/AAAA)."@)
    } else if !(montant_lu(rogne(f.dec_montant@)) matches Some(v) && v >= 0) {
        Some("Montant invalide."@)
    } else {
        None
    }
}

/// Mouvement rattaché à la période `pid`.
pub open spec fn de_periode_enc(pid: u64) -> spec_fn(Encaissement) -> bool {
    |e: Encaissement| e.periode_id == pid
}

/// Mouvement rattaché à la période `pid`.
pub open spec fn de_periode_dec(pid: u64) -> spec_fn(Decaissement) -> bool {
    |d: Decaissement| d.periode_id == pid
}

/// Mouvement d'une autre période que `pid`.
pub open spec fn hors_periode_enc(pid: u64) -> spec_fn(Encaissement) -> bool {
    |e: Encaissement| e.periode_id != pid
}

/// Mouvement d'une autre période que `pid`.
pub open spec fn hors_periode_dec(pid: u64) -> spec_fn(Decaissement) -> bool {
    |d: Decaissement| d.periode_id != pid
}

/// Effet de la création de période le jour `t` : message d'erreur, ou
/// nouvelle période active et formulaire remis à zéro.
pub open spec fn periode_creee(avant: App, apres: App, t: int, sauver: bool) -> bool {
    &&& sauver == (erreur_periode(avant.caisse) is None)
    &&& match erreur_periode(avant.caisse) {
        Some(m) => {
            &&& apres.caisse.new_msg@ == m
            &&& apres.caisse == (FormulaireCaisse {
                new_msg: apres.caisse.new_msg,
                ..avant.caisse
            })
            &&& apres == (App { caisse: apres.caisse, ..avant })
        },
        None => {
            let f = avant.caisse;
            let n = avant.caisse_periodes@.len();
            let p = apres.caisse_periodes@[n as int];
            let g = apres.caisse;
            let id = max_ident(avant.caisse_periodes@) + 1;
            &&& apres.caisse_periodes@.len() == n + 1
            &&& apres.caisse_periodes@.take(n as int) == avant.caisse_periodes@
            &&& p.id == id
            &&& p.nom@ == rogne(f.new_nom@)
            &&& p.date_debut@ == date_ecrite(date_saisie(f.new_debut@)->0, format_iso())
            &&& p.date_fin@ == date_ecrite(date_saisie(f.new_fin@)->0, format_iso())
            &&& !p.fermee
            &&& g.new_msg@ == "OK Période \""@ + rogne(f.new_nom@) + "\" créée."@
            &&& g.periode_active == Some(id as u64)
            &&& g.new_nom@.len() == 0
            &&& g.new_debut@ == date_ecrite(t, format_jma())
            &&& g.new_fin@ == texte_dans_7j(t)
            &&& g == (FormulaireCaisse {
                new_msg: g.new_msg,
                periode_active: g.periode_active,
                new_nom: g.new_nom,
                new_debut: g.new_debut,
                new_fin: g.new_fin,
                creer_visible: false,
                ..f
            })
            &&& apres == (App {
                caisse_periodes: apres.caisse_periodes,
                caisse: g,
                ..avant
            })
        },
    }
}

/// Effet de l'ajout d'un encaissement à la période `periode_id` le jour `t`.
pub open spec fn encaissement_ajoute(avant: App, apres: App, periode_id: u64, t: int, sauver: bool) -> bool {
    &&& sauver == (erreur_encaissement(avant.caisse) is None)
    &&& match erreur_encaissement(avant.caisse) {
        Some(m) => {
            &&& apres.caisse.enc_msg@ == m
            &&& apres.caisse == (FormulaireCaisse {
                enc_msg: apres.caisse.enc_msg,
                ..avant.caisse
            })
            &&& apres == (App { caisse: apres.caisse, ..avant })
        },
        None => {
            let f = avant.caisse;
            let n = avant.caisse_encaissements@.len();
            let e = apres.caisse_encaissements@[n as int];
            let g = apres.caisse;
            let montant = montant_lu(rogne(f.enc_montant@))->0;
            &&& apres.caisse_encaissements@.len() == n + 1
            &&& apres.caisse_encaissements@.take(n as int)
                == avant.caisse_encaissements@
            &&& e.id == max_ident(avant.caisse_encaissements@) + 1
            &&& e.periode_id == periode_id
            &&& e.date@ == date_ecrite(date_saisie(f.enc_date@)->0, format_iso())
            &&& e.client_nom@ == rogne(f.enc_client@)
            &&& e.contrat_numero@ == rogne(f.enc_contrat@)
            &&& e.voiture@ == rogne(f.enc_voiture@)
            &&& e.details@ == rogne(f.enc_details@)
            &&& e.montant == montant
            &&& g.enc_msg@ == "OK Encaissement de "@ + ecriture_arrondie(montant as int)
                + " DA ajouté."@
            &&& g.enc_client@.len() == 0 && g.enc_contrat@.len() == 0
            &&& g.enc_voiture@.len() == 0 && g.enc_details@.len() == 0
            &&& g.enc_montant@.len() == 0
            &&& g.enc_date@ == date_ecrite(t, format_jma())
            &&& g == (FormulaireCaisse {
                enc_msg: g.enc_msg,
                enc_client: g.enc_client,
                enc_contrat: g.enc_contrat,
                enc_voiture: g.enc_voiture,
                enc_details: g.enc_details,
                enc_montant: g.enc_montant,
                enc_date: g.enc_date,
                ..f
            })
            &&& apres == (App {
                caisse_encaissements: apres.caisse_encaissements,
                caisse: g,
                ..avant
            })
        },
    }
}

/// Effet de l'ajout d'un décaissement à la période `periode_id` le jour `t`.
pub open spec fn decaissement_ajoute(avant: App, apres: App, periode_id: u64, t: int, sauver: bool) -> bool {
    &&& sauver == (erreur_decaissement(avant.caisse) is None)
    &&& match erreur_decaissement(avant.caisse) {
        Some(m) => {
            &&& apres.caisse.dec_msg@ == m
            &&& apres.caisse == (FormulaireCaisse {
                dec_msg: apres.caisse.dec_msg,
                ..avant.caisse
            })
            &&& apres == (App { caisse: apres.caisse, ..avant })
        },
        None => {
            let f = avant.caisse;
            let n = avant.caisse_decaissements@.len();
            let d = apres.caisse_decaissements@[n as int];
            let g = apres.caisse;
            let montant = montant_lu(rogne(f.dec_montant@))->0;
            &&& apres.caisse_decaissements@.len() == n + 1
            &&& apres.caisse_decaissements@.take(n as int)
                == avant.caisse_decaissements@
            &&& d.id == max_ident(avant.caisse_decaissements@) + 1
            &&& d.periode_id == periode_id
            &&& d.date@ == date_ecrite(date_saisie(f.dec_date@)->0, format_iso())
            &&& d.nom@ == rogne(f.dec_nom@)
            &&& d.details@ == rogne(f.dec_details@)
            &&& d.montant == montant
            &&& g.dec_msg@ == "OK Décaissement de "@ + ecriture_arrondie(montant as int)
                + " DA ajouté."@
            &&& g.dec_nom@.len() == 0 && g.dec_details@.len() == 0
            &&& g.dec_montant@.len() == 0
            &&& g.dec_date@ == date_ecrite(t, format_jma())
            &&& g == (FormulaireCaisse {
                dec_msg: g.dec_msg,
                dec_nom: g.dec_nom,
                dec_details: g.dec_details,
                dec_montant: g.dec_montant,
                dec_date: g.dec_date,
                ..f
            })
            &&& apres == (App {
                caisse_decaissements: apres.caisse_decaissements,
                caisse: g,
                ..avant
            })
        },
    }
}

impl App {
    /// Crée la période saisie, le jour `t`, et la rend active. Rend vrai si
    /// les périodes ont changé.
    pub fn creer_periode_caisse(&mut self, t: Date) -> (sauver: bool)
        requires
            jour_valide(t.jour as int),
            max_ident(old(self).caisse_periodes@) < u64::MAX,
        ensures
            periode_creee(*old(self), *final(self), t.jour as int, sauver),
    {
        if est_blanc_texte(self.caisse.new_nom.as_str()) {
            self.caisse.new_msg = String::from_str("Le nom de la période est obligatoire.");
            return false;
        }
        let debut = match parse_date(self.caisse.new_debut.as_str()) {
            Some(d) => d,
            None => {
                self.caisse.new_msg = String::from_str("Date de début invalide (JJ/MM/AAAA).");
                return false;
            },
        };
        let fin = match parse_date(self.caisse.new_fin.as_str()) {
            Some(d) => d,
            None => {
                self.caisse.new_msg = String::from_str("Date de fin invalide (JJ/MM/AAAA).");
                return false;
            },
        };
        let id = prochain_identifiant(&self.caisse_periodes);
        let p = PeriodeCaisse {
            id,
            nom: rogner(self.caisse.new_nom.as_str()),
            date_debut: stocker_date(debut),
            date_fin: stocker_date(fin),
            fermee: false,
        };
        let mut msg = String::from_str("OK Période \"");
        msg.append(p.nom.as_str());
        msg.append("\" créée.");
        let ghost n = self.caisse_periodes@.len();
        self.caisse_periodes.push(p);
        assert(self.caisse_periodes@.take(n as int) =~= old(self).caisse_periodes@);
        self.caisse.new_msg = msg;
        self.caisse.periode_active = Some(id);
        self.caisse.new_nom = String::new();
        self.caisse.new_debut = texte_jma(t);
        self.caisse.new_fin = dans_7j(t);
        self.caisse.creer_visible = false;
        true
    }

    /// Ajoute l'encaissement saisi à la période `periode_id`, le jour `t`.
    /// Rend vrai si les encaissements ont changé.
    pub fn ajouter_encaissement(&mut self, periode_id: u64, t: Date) -> (sauver: bool)
        requires
            jour_valide(t.jour as int),
            max_ident(old(self).caisse_encaissements@) < u64::MAX,
        ensures
            encaissement_ajoute(*old(self), *final(self), periode_id, t.jour as int, sauver),
    {
        if est_blanc_texte(self.caisse.enc_client.as_str()) {
            self.caisse.enc_msg = String::from_str("Le nom du client est obligatoire.");
            return false;
        }
        let date = match parse_date(self.caisse.enc_date.as_str()) {
            Some(d) => d,
            None => {
                self.caisse.enc_msg = String::from_str("Date invalide (JJ/MM/AAAA).");
                return false;
            },
        };
        let montant = match lire_montant(rogner(self.caisse.enc_montant.as_str()).as_str()) {
            Some(v) => {
                if v >= 0 {
                    v
                } else {
                    self.caisse.enc_msg = String::from_str("Montant invalide.");
                    return false;
                }
            },
            None => {
                self.caisse.enc_msg = String::from_str("Montant invalide.");
                return false;
            },
        };
        let e = Encaissement {
            id: prochain_identifiant(&self.caisse_encaissements),
            periode_id,
            date: stocker_date(date),
            client_nom: rogner(self.caisse.enc_client.as_str()),
            contrat_numero: rogner(self.caisse.enc_contrat.as_str()),
            voiture: rogner(self.caisse.enc_voiture.as_str()),
            details: rogner(self.caisse.enc_details.as_str()),
            montant,
        };
        let ghost n = self.caisse_encaissements@.len();
        self.caisse_encaissements.push(e);
        assert(self.caisse_encaissements@.take(n as int) =~= old(self).caisse_encaissements@);
        let mut msg = String::from_str("OK Encaissement de ");
        msg.append(texte_arrondi(montant as i128).as_str());
        msg.append(" DA ajouté.");
        self.caisse.enc_msg = msg;
        self.caisse.enc_client = String::new();
        self.caisse.enc_contrat = String::new();
        self.caisse.enc_voiture = String::new();
        self.caisse.enc_details = String::new();
        self.caisse.enc_montant = String::new();
        self.caisse.enc_date = texte_jma(t);
        true
    }

    /// Ajoute le décaissement saisi à la période `periode_id`, le jour `t`.
    /// Rend vrai si les décaissements ont changé.
    pub fn ajouter_decaissement(&mut self, periode_id: u64, t: Date) -> (sauver: bool)
        requires
            jour_valide(t.jour as int),
            max_ident(old(self).caisse_decaissements@) < u64::MAX,
        ensures
            decaissement_ajoute(*old(self), *final(self), periode_id, t.jour as int, sauver),
    {
        if est_blanc_texte(self.caisse.dec_nom.as_str()) {
            self.caisse.dec_msg = String::from_str("Le nom est obligatoire.");
            return false;
        }
        let date = match parse_date(self.caisse.dec_date.as_str()) {
            Some(d) => d,
            None => {
                self.caisse.dec_msg = String::from_str("Date invalide (JJ/MM/AAAA).");
                return false;
            },
        };
        let montant = match lire_montant(rogner(self.caisse.dec_montant.as_str()).as_str()) {
            Some(v) => {
                if v >= 0 {
                    v
                } else {
                    self.caisse.dec_msg = String::from_str("Montant invalide.");
                    return false;
                }
            },
            None => {
                self.caisse.dec_msg = String::from_str("Montant invalide.");
                return false;
            },
        };
        let d = Decaissement {
            id: prochain_identifiant(&self.caisse_decaissements),
            periode_id,
            date: stocker_date(date),
            nom: rogner(self.caisse.dec_nom.as_str()),
            details: rogner(self.caisse.dec_details.as_str()),
            montant,
        };
        let ghost n = self.caisse_decaissements@.len();
        self.caisse_decaissements.push(d);
        assert(self.caisse_decaissements@.take(n as int) =~= old(self).caisse_decaissements@);
        let mut msg = String::from_str("OK Décaissement de ");
        msg.append(texte_arrondi(montant as i128).as_str());
        msg.append(" DA ajouté.");
        self.caisse.dec_msg = msg;
        self.caisse.dec_nom = String::new();
        self.caisse.dec_details = String::new();
        self.caisse.dec_montant = String::new();
        self.caisse.dec_date = texte_jma(t);
        true
    }

    /// Ferme la première période d'identifiant `pid`.
    pub fn fermer_periode(&mut self, pid: u64)
        ensures
            final(self).caisse_periodes@.len() == old(self).caisse_periodes@.len(),
            absent(old(self).caisse_periodes@, pid) ==> final(self).caisse_periodes@
                == old(self).caisse_periodes@,
            forall|k: int|
                rang_ident(old(self).caisse_periodes@, pid, k) ==> {
                    &&& final(self).caisse_periodes@[k] == (PeriodeCaisse {
                        fermee: true,
                        ..old(self).caisse_periodes@[k]
                    })
                    &&& forall|j: int|
                        0 <= j < old(self).caisse_periodes@.len() && j != k
                            ==> final(self).caisse_periodes@[j] == old(self).caisse_periodes@[j]
                },
            *final(self) == (App { caisse_periodes: final(self).caisse_periodes, ..*old(self) }),
    {
        match chercher_ident(&self.caisse_periodes, pid) {
            Some(k) => {
                let p = PeriodeCaisse { fermee: true, ..self.caisse_periodes[k].copie() };
                self.caisse_periodes.set(k, p);
                proof {
                    assert forall|k2: int| rang_ident(old(self).caisse_periodes@, pid, k2) implies k2
                        == k by {
                        lemme_rang_unique(old(self).caisse_periodes@, pid, k2, k as int);
                    }
                }
            },
            None => {},
        }
    }

    /// Supprime la période `pid` avec ses encaissements et décaissements ; la
    /// période active est oubliée si c'était elle.
    pub fn supprimer_periode(&mut self, pid: u64)
        ensures
            final(self).caisse_periodes@ == sans_ident(old(self).caisse_periodes@, pid),
            final(self).caisse_encaissements@ == old(self).caisse_encaissements@.filter(
                hors_periode_enc(pid),
            ),
            final(self).caisse_decaissements@ == old(self).caisse_decaissements@.filter(
                hors_periode_dec(pid),
            ),
            *final(self) == (App {
                caisse_periodes: final(self).caisse_periodes,
                caisse_encaissements: final(self).caisse_encaissements,
                caisse_decaissements: final(self).caisse_decaissements,
                caisse: FormulaireCaisse {
                    periode_active: if old(self).caisse.periode_active == Some(pid) {
                        None
                    } else {
                        old(self).caisse.periode_active
                    },
                    suppr_periode: None,
                    ..old(self).caisse
                },
                ..*old(self)
            }),
    {
        retirer_ident(&mut self.caisse_periodes, pid);
        let mut encs: Vec<Encaissement> = Vec::new();
        let ghost p = hors_periode_enc(pid);
        let mut i: usize = 0;
        proof {
            lemme_filtre_vide(self.caisse_encaissements@, p);
        }
        while i < self.caisse_encaissements.len()
            invariant
                0 <= i <= self.caisse_encaissements.len(),
                p == hors_periode_enc(pid),
                self.caisse_encaissements@ == old(self).caisse_encaissements@,
                encs@ == self.caisse_encaissements@.take(i as int).filter(p),
            decreases self.caisse_encaissements.len() - i,
        {
            proof {
                lemme_filtre_pas(self.caisse_encaissements@, p, i as int);
            }
            if self.caisse_encaissements[i].periode_id != pid {
                encs.push(self.caisse_encaissements[i].copie());
            }
            i = i + 1;
        }
        assert(self.caisse_encaissements@.take(self.caisse_encaissements.len() as int)
            =~= self.caisse_encaissements@);
        self.caisse_encaissements = encs;
        let mut decs: Vec<Decaissement> = Vec::new();
        let ghost q = hors_periode_dec(pid);
        let mut j: usize = 0;
        proof {
            lemme_filtre_vide(self.caisse_decaissements@, q);
        }
        while j < self.caisse_decaissements.len()
            invariant
                0 <= j <= self.caisse_decaissements.len(),
                q == hors_periode_dec(pid),
                self.caisse_decaissements@ == old(self).caisse_decaissements@,
                decs@ == self.caisse_decaissements@.take(j as int).filter(q),
            decreases self.caisse_decaissements.len() - j,
        {
            proof {
                lemme_filtre_pas(self.caisse_decaissements@, q, j as int);
            }
            if self.caisse_decaissements[j].periode_id != pid {
                decs.push(self.caisse_decaissements[j].copie());
            }
            j = j + 1;
        }
        assert(self.caisse_decaissements@.take(self.caisse_decaissements.len() as int)
            =~= self.caisse_decaissements@);
        self.caisse_decaissements = decs;
        if self.caisse.periode_active == Some(pid) {
            self.caisse.periode_active = None;
        }
        self.caisse.suppr_periode = None;
    }

    /// Supprime les encaissements d'identifiant `id` et ferme la confirmation.
    pub fn supprimer_encaissement(&mut self, id: u64)
        ensures
            final(self).caisse_encaissements@ == sans_ident(old(self).caisse_encaissements@, id),
            *final(self) == (App {
                caisse_encaissements: final(self).caisse_encaissements,
                caisse: FormulaireCaisse { enc_suppr: None, ..old(self).caisse },
                ..*old(self)
            }),
    {
        retirer_ident(&mut self.caisse_encaissements, id);
        self.caisse.enc_suppr = None;
    }

    /// Supprime les décaissements d'identifiant `id` et ferme la confirmation.
    pub fn supprimer_decaissement(&mut self, id: u64)
        ensures
            final(self).caisse_decaissements@ == sans_ident(old(self).caisse_decaissements@, id),
            *final(self) == (App {
                caisse_decaissements: final(self).caisse_decaissements,
                caisse: FormulaireCaisse { dec_suppr: None, ..old(self).caisse },
                ..*old(self)
            }),
    {
        retirer_ident(&mut self.caisse_decaissements, id);
        self.caisse.dec_suppr = None;
    }

    /// Encaissements de la période `pid`, dans l'ordre.
    pub fn encaissements_de(&self, pid: u64) -> (r: Vec<Encaissement>)
        ensures
            r@ == self.caisse_encaissements@.filter(de_periode_enc(pid)),
    {
        let mut r: Vec<Encaissement> = Vec::new();
        let ghost p = de_periode_enc(pid);
        let mut i: usize = 0;
        proof {
            lemme_filtre_vide(self.caisse_encaissements@, p);
        }
        while i < self.caisse_encaissements.len()
            invariant
                0 <= i <= self.caisse_encaissements.len(),
                p == de_periode_enc(pid),
                r@ == self.caisse_encaissements@.take(i as int).filter(p),
            decreases self.caisse_encaissements.len() - i,
        {
            proof {
                lemme_filtre_pas(self.caisse_encaissements@, p, i as int);
            }
            if self.caisse_encaissements[i].periode_id == pid {
                r.push(self.caisse_encaissements[i].copie());
            }
            i = i + 1;
        }
        assert(self.caisse_encaissements@.take(self.caisse_encaissements.len() as int)
            =~= self.caisse_encaissements@);
        r
    }

    /// Décaissements de la période `pid`, dans l'ordre.
    pub fn decaissements_de(&self, pid: u64) -> (r: Vec<Decaissement>)
        ensures
            r@ == self.caisse_decaissements@.filter(de_periode_dec(pid)),
    {
        let mut r: Vec<Decaissement> = Vec::new();
        let ghost p = de_periode_dec(pid);
        let mut i: usize = 0;
        proof {
            lemme_filtre_vide(self.caisse_decaissements@, p);
        }
        while i < self.caisse_decaissements.len()
            invariant
                0 <= i <= self.caisse_decaissements.len(),
                p == de_periode_dec(pid),
                r@ == self.caisse_decaissements@.take(i as int).filter(p),
            decreases self.caisse_decaissements.len() - i,
        {
            proof {
                lemme_filtre_pas(self.caisse_decaissements@, p, i as int);
            }
            if self.caisse_decaissements[i].periode_id == pid {
                r.push(self.caisse_decaissements[i].copie());
            }
            i = i + 1;
        }
        assert(self.caisse_decaissements@.take(self.caisse_decaissements.len() as int)
            =~= self.caisse_decaissements@);
        r
    }

    /// Totaux de la période `pid` : encaissements, décaissements et solde de
    /// la caisse (`None` pour un calcul qui sort des entiers sur 128 bits).
    pub fn totaux_periode(&self, pid: u64) -> (r: (Option<i128>, Option<i128>, Option<i128>))
        ensures
            valeur_opt(r.0) == somme_bornee(
                self.caisse_encaissements@.filter(de_periode_enc(pid)).map_values(
                    |e: Encaissement| e.montant as int,
                ),
            ),
            valeur_opt(r.1) == somme_bornee(
                self.caisse_decaissements@.filter(de_periode_dec(pid)).map_values(
                    |d: Decaissement| d.montant as int,
                ),
            ),
            r.2 == (match (r.0, r.1) {
                (Some(a), Some(b)) => if i128::MIN < a - b <= i128::MAX {
                    Some((a - b) as i128)
                } else {
                    None
                },
                _ => None,
            }),
    {
        let encs = self.encaissements_de(pid);
        let decs = self.decaissements_de(pid);
        let mut ve: Vec<i128> = Vec::new();
        let ghost fe = |e: Encaissement| e.montant as int;
        let mut i: usize = 0;
        assert(valeurs(ve@) =~= encs@.take(0).map_values(fe));
        while i < encs.len()
            invariant
                0 <= i <= encs.len(),
                fe == (|e: Encaissement| e.montant as int),
                valeurs(ve@) == encs@.take(i as int).map_values(fe),
            decreases encs.len() - i,
        {
            let ghost avant = ve@;
            ve.push(encs[i].montant as i128);
            assert(valeurs(ve@) =~= valeurs(avant).push(encs@[i as int].montant as int));
            assert(encs@.take(i + 1) =~= encs@.take(i as int).push(encs@[i as int]));
            assert(valeurs(ve@) =~= encs@.take(i + 1).map_values(fe));
            i = i + 1;
        }
        assert(encs@.take(encs.len() as int) =~= encs@);
        let mut vd: Vec<i128> = Vec::new();
        let ghost fd = |d: Decaissement| d.montant as int;
        let mut j: usize = 0;
        assert(valeurs(vd@) =~= decs@.take(0).map_values(fd));
        while j < decs.len()
            invariant
                0 <= j <= decs.len(),
                fd == (|d: Decaissement| d.montant as int),
                valeurs(vd@) == decs@.take(j as int).map_values(fd),
            decreases decs.len() - j,
        {
            let ghost avant = vd@;
            vd.push(decs[j].montant as i128);
            assert(valeurs(vd@) =~= valeurs(avant).push(decs@[j as int].montant as int));
            assert(decs@.take(j + 1) =~= decs@.take(j as int).push(decs@[j as int]));
            assert(valeurs(vd@) =~= decs@.take(j + 1).map_values(fd));
            j = j + 1;
        }
        assert(decs@.take(decs.len() as int) =~= decs@);
        let te = additionner(&ve);
        let td = additionner(&vd);
        let solde = match (te, td) {
            (Some(a), Some(b)) => {
                if (b > 0 && a <= i128::MIN + b) || (b < 0 && a > i128::MAX + b) || (b == 0 && a == i128::MIN) {
                    None
                } else {
                    Some(a - b)
                }
            },
            _ => None,
        };
        (te, td, solde)
    }
}


/// Libellé d'une période : nom et dates affichées, séparés par `sep`.
pub open spec fn libelle_periode_spec(p: PeriodeCaisse, sep: Seq<char>) -> Seq<char> {
    p.nom@ + sep + "("@ + affichage_date(p.date_debut@) + " au "@ + affichage_date(p.date_fin@) + ")"@
}

/// Libellé d'une période dans la liste de choix, marqué « [Fermée] » si elle
/// est fermée.
pub open spec fn libelle_choix_periode(p: PeriodeCaisse) -> Seq<char> {
    libelle_periode_spec(p, "  "@) + (if p.fermee {
        "  [Fermée]"@
    } else {
        Seq::<char>::empty()
    })
}

/// Libellé de la période choisie, ou l'invitation à en choisir une.
pub open spec fn libelle_active(periodes: Seq<PeriodeCaisse>, active: Option<u64>) -> Seq<char> {
    match active {
        None => "— Choisir une période —"@,
        Some(id) => if absent(periodes, id) {
            "— Choisir une période —"@
        } else {
            libelle_periode_spec(periodes[choose|k: int| rang_ident(periodes, id, k)], " "@)
        },
    }
}

/// La période `pid` est-elle fermée (fausse si elle n'existe pas) ?
pub open spec fn periode_fermee(periodes: Seq<PeriodeCaisse>, pid: u64) -> bool {
    !absent(periodes, pid) && periodes[choose|k: int| rang_ident(periodes, pid, k)].fermee
}

/// Le message commence par « OK » (message de réussite).
pub open spec fn message_ok(msg: Seq<char>) -> bool {
    msg.len() >= 2 && msg[0] == 'O' && msg[1] == 'K'
}

/// Message de réussite ?
pub fn est_message_ok(msg: &str) -> (r: bool)
    ensures
        r == message_ok(msg@),
{
    msg.unicode_len() >= 2 && msg.get_char(0) == 'O' && msg.get_char(1) == 'K'
}

/// Libellé d'une période : nom, `sep`, puis dates entre parenthèses.
fn texte_periode(p: &PeriodeCaisse, sep: &str) -> (r: String)
    ensures
        r@ == libelle_periode_spec(*p, sep@),
{
    let mut r = String::from_str(p.nom.as_str());
    r.append(sep);
    r.append("(");
    let d = afficher_date(p.date_debut.as_str());
    r.append(d.as_str());
    r.append(" au ");
    let f = afficher_date(p.date_fin.as_str());
    r.append(f.as_str());
    r.append(")");
    r
}

/// Libellé d'une période dans la liste de choix.
pub fn libelle_choix_periode_de(p: &PeriodeCaisse) -> (r: String)
    ensures
        r@ == libelle_choix_periode(*p),
{
    let mut r = texte_periode(p, "  ");
    if p.fermee {
        r.append("  [Fermée]");
    } else {
        proof {
            reveal_strlit("");
        }
        assert(r@ =~= r@ + Seq::<char>::empty());
    }
    r
}

impl App {
    /// Libellé de la période choisie.
    pub fn libelle_periode_active(&self) -> (r: String)
        ensures
            r@ == libelle_active(self.caisse_periodes@, self.caisse.periode_active),
    {
        match self.caisse.periode_active {
            None => String::from_str("— Choisir une période —"),
            Some(id) => match chercher_ident(&self.caisse_periodes, id) {
                Some(k) => {
                    proof {
                        let k2 = choose|k2: int| rang_ident(self.caisse_periodes@, id, k2);
                        lemme_rang_unique(self.caisse_periodes@, id, k as int, k2);
                    }
                    texte_periode(&self.caisse_periodes[k], " ")
                },
                None => String::from_str("— Choisir une période —"),
            },
        }
    }

    /// La période `pid` est-elle fermée ?
    pub fn est_fermee(&self, pid: u64) -> (r: bool)
        ensures
            r == periode_fermee(self.caisse_periodes@, pid),
    {
        match chercher_ident(&self.caisse_periodes, pid) {
            Some(k) => {
                proof {
                    let k2 = choose|k2: int| rang_ident(self.caisse_periodes@, pid, k2);
                    lemme_rang_unique(self.caisse_periodes@, pid, k as int, k2);
                }
                self.caisse_periodes[k].fermee
            },
            None => false,
        }
    }

    /// Montre ou cache le formulaire de création de période et efface son message.
    pub fn basculer_creation_periode(&mut self)
        ensures
            final(self).caisse.creer_visible == !old(self).caisse.creer_visible,
            final(self).caisse.new_msg@.len() == 0,
            *final(self) == (App {
                caisse: FormulaireCaisse {
                    creer_visible: final(self).caisse.creer_visible,
                    new_msg: final(self).caisse.new_msg,
                    ..old(self).caisse
                },
                ..*old(self)
            }),
    {
        self.caisse.creer_visible = !self.caisse.creer_visible;
        self.caisse.new_msg = String::new();
    }
}

/// Couleur du solde de la caisse : rouge s'il est négatif, vert sinon (vert
/// aussi quand il ne se calcule pas).
pub open spec fn couleur_du_solde(solde: Option<i128>) -> Rgb {
    if solde matches Some(x) && x < 0 {
        couleur_rouge_iam()
    } else {
        couleur_vert()
    }
}

/// Couleur du solde de la caisse.
pub fn couleur_solde(solde: Option<i128>) -> (c: Rgb)
    ensures
        c == couleur_du_solde(solde),
{
    match solde {
        Some(x) => if x < 0 {
            rouge_iam()
        } else {
            vert()
        },
        None => vert(),
    }
}

} // verus!
