//! Saisie des contrats : remise à zéro du formulaire, numéro proposé et
//! enregistrement (création ou modification) avec ses contrôles.
use vstd::prelude::*;
use vstd::string::*;
use crate::date::{Date, date_saisie, date_analysee, date_ecrite, format_iso, format_jma, jour_valide, annee_mois,
    annee_et_mois, parse_date, stocker_date, texte_jma, dans_7j, texte_dans_7j};
use crate::modeles::{Contrat, Voiture};
use crate::montant::{montant_lu, lire_montant, ecriture_arrondie, texte_arrondi};
use crate::nombre::{ecriture_naturel, ecriture_entier, ecrire_naturel, entier_en_texte, ecriture_4};
use crate::texte::{rogne, rogner, est_blanc, est_blanc_texte, egal};
use crate::agence::{App, FormulaireContrat, max_id_contrats, disponible};

verus! {

/// Le formulaire remis à zéro pour le jour `t`, l'agent étant conservé.
pub open spec fn formulaire_vide(f: FormulaireContrat, agent: Seq<char>, t: int) -> bool {
    &&& formulaire_vide_sauf_message(f, agent, t)
    &&& f.msg@ == Seq::<char>::empty()
    &&& !f.ok
}

/// Le formulaire remis à zéro pour le jour `t`, sans regarder le message.
pub open spec fn formulaire_vide_sauf_message(f: FormulaireContrat, agent: Seq<char>, t: int) -> bool {
    &&& f.numero@ == Seq::<char>::empty()
    &&& f.voiture == 0
    &&& f.voiture_note@ == Seq::<char>::empty()
    &&& f.voiture_search@ == Seq::<char>::empty()
    &&& f.client@ == Seq::<char>::empty()
    &&& f.tel@ == Seq::<char>::empty()
    &&& f.agent@ == agent
    &&& f.debut@ == date_ecrite(t, format_jma())
    &&& f.fin@ == texte_dans_7j(t)
    &&& f.heure_debut@ == Seq::<char>::empty()
    &&& f.heure_fin@ == Seq::<char>::empty()
    &&& f.km_dep@ == "0"@
    &&& f.km_ret@ == "0"@
    &&& f.tarif@ == Seq::<char>::empty()
    &&& f.notes@ == Seq::<char>::empty()
    &&& f.montant_paye@ == "0"@
    &&& f.en_edition is None
    &&& !f.car_error_cleared
}

/// Un formulaire de contrat vierge pour le jour `t`.
pub fn nouveau_formulaire(t: Date) -> (f: FormulaireContrat)
    requires
        jour_valide(t.jour as int),
    ensures
        formulaire_vide(f, Seq::<char>::empty(), t.jour as int),
{
    FormulaireContrat {
        numero: String::new(),
        voiture: 0,
        voiture_note: String::new(),
        voiture_search: String::new(),
        client: String::new(),
        tel: String::new(),
        agent: String::new(),
        debut: texte_jma(t),
        fin: dans_7j(t),
        heure_debut: String::new(),
        heure_fin: String::new(),
        km_dep: String::from_str("0"),
        km_ret: String::from_str("0"),
        tarif: String::new(),
        notes: String::new(),
        montant_paye: String::from_str("0"),
        msg: String::new(),
        ok: false,
        en_edition: None,
        car_error_cleared: false,
    }
}

/// Numéro de contrat proposé : « IAM-année-identifiant » (identifiant sur
/// quatre chiffres au moins).
pub open spec fn numero_propose(annee: int, id: nat) -> Seq<char> {
    "IAM-"@ + ecriture_entier(annee) + "-"@ + ecriture_4(id)
}

/// Voiture choisie dans le parc (rang plus un, dans les bornes).
pub open spec fn voiture_choisie(f: FormulaireContrat, vs: Seq<Voiture>) -> bool {
    1 <= f.voiture <= vs.len()
}

/// Tarif journalier saisi : celui de la voiture si le champ est vide, sinon
/// le montant lu ; `None` s'il manque ou n'est pas positif.
pub open spec fn tarif_saisi(f: FormulaireContrat, vs: Seq<Voiture>) -> Option<int> {
    if est_blanc(f.tarif@) {
        if voiture_choisie(f, vs) {
            Some(vs[f.voiture - 1].tarif_jour as int)
        } else {
            None
        }
    } else {
        match montant_lu(rogne(f.tarif@)) {
            Some(x) => if x > 0 {
                Some(x as int)
            } else {
                None
            },
            None => None,
        }
    }
}

/// Montant lu dans un champ, zéro s'il ne se lit pas.
pub open spec fn montant_ou_zero(s: Seq<char>) -> int {
    match montant_lu(rogne(s)) {
        Some(x) => x as int,
        None => 0,
    }
}

/// Numéro retenu : le numéro saisi (rogné), ou le numéro proposé s'il est vide.
pub open spec fn numero_retenu(f: FormulaireContrat, contrats: Seq<Contrat>, t: int) -> Seq<char> {
    if est_blanc(f.numero@) {
        numero_propose(annee_mois(t).0, max_id_contrats(contrats) + 1)
    } else {
        rogne(f.numero@)
    }
}

/// Contrat exclu du contrôle de disponibilité : celui que l'on modifie.
pub open spec fn contrat_exclu(f: FormulaireContrat, contrats: Seq<Contrat>) -> Option<u64> {
    match f.en_edition {
        Some(i) => if i < contrats.len() {
            Some(contrats[i as int].id)
        } else {
            None
        },
        None => None,
    }
}

/// Message d'erreur de l'enregistrement, ou `None` s'il réussit.
pub open spec fn erreur_enregistrement(app: App, t: int) -> Option<Seq<char>> {
    let f = app.formulaire;
    let vs = app.voitures@;
    let cs = app.contrats@;
    if f.voiture == 0 && est_blanc(f.voiture_note@) {
        Some("Sélectionnez un véhicule ou décrivez le type."@)
    } else if est_blanc(f.client@) {
        Some("Le nom du client est obligatoire."@)
    } else if est_blanc(f.agent@) {
        Some("L'agent commercial est obligatoire."@)
    } else if date_saisie(f.debut@) is None {
        Some("Date de début invalide (JJ/MM/AAAA)."@)
    } else if date_saisie(f.fin@) is None {
        Some("Date de fin invalide (JJ/MM/AAAA)."@)
    } else if date_saisie(f.debut@)->0 > date_saisie(f.fin@)->0 {
        Some("La date de début doit être avant la date de fin."@)
    } else if tarif_saisi(f, vs) is None {
        Some("Prix par jour invalide."@)
    } else if f.en_edition is None && exists|k: int|
        0 <= k < cs.len() && (#[trigger] cs[k]).numero@ == numero_retenu(f, cs, t) {
        Some("Ce numéro de contrat existe déjà."@)
    } else if voiture_choisie(f, vs) && !disponible(
        cs,
        vs[f.voiture - 1].id,
        date_saisie(f.debut@)->0,
        date_saisie(f.fin@)->0,
        contrat_exclu(f, cs),
    ) {
        Some("Ce véhicule est déjà loué sur cette période !"@)
    } else {
        None
    }
}

/// Champs d'un contrat remplis depuis le formulaire.
pub open spec fn contrat_saisi(c: Contrat, app: App, t: int) -> bool {
    let f = app.formulaire;
    let vs = app.voitures@;
    let choisie = voiture_choisie(f, vs);
    &&& c.numero@ == numero_retenu(f, app.contrats@, t)
    &&& c.voiture_id == (if choisie {
        vs[f.voiture - 1].id
    } else {
        0
    })
    &&& c.voiture_modele@ == (if choisie {
        vs[f.voiture - 1].modele@
    } else {
        "À spécifier: "@ + f.voiture_note@
    })
    &&& c.voiture_plaque@ == (if choisie {
        vs[f.voiture - 1].plaque@
    } else {
        "À définir"@
    })
    &&& c.client_nom@ == rogne(f.client@)
    &&& c.client_tel@ == rogne(f.tel@)
    &&& c.agent@ == rogne(f.agent@)
    &&& c.date_debut@ == date_ecrite(date_saisie(f.debut@)->0, format_iso())
    &&& c.date_fin@ == date_ecrite(date_saisie(f.fin@)->0, format_iso())
    &&& c.km_depart == montant_ou_zero(f.km_dep@)
    &&& c.km_retour == montant_ou_zero(f.km_ret@)
    &&& c.tarif_jour == tarif_saisi(f, vs)->0
    &&& c.notes@ == rogne(f.notes@)
    &&& c.montant_paye == montant_ou_zero(f.montant_paye@)
    &&& c.modifiable_note@ == rogne(f.voiture_note@)
    &&& c.heure_debut@ == rogne(f.heure_debut@)
    &&& c.heure_fin@ == rogne(f.heure_fin@)
}

/// Jours facturés pour la période saisie (au moins un).
pub open spec fn jours_saisis(f: FormulaireContrat) -> int {
    let e = date_saisie(f.fin@)->0 - date_saisie(f.debut@)->0;
    if e >= 1 {
        e
    } else {
        1
    }
}

/// Message de réussite de l'enregistrement.
pub open spec fn message_enregistrement(app: App, t: int) -> Seq<char> {
    let f = app.formulaire;
    let num = numero_retenu(f, app.contrats@, t);
    match f.en_edition {
        Some(_) => "Contrat "@ + num + " modifié avec succès."@,
        None => "Contrat "@ + num + " enregistré. "@ + ecriture_naturel(jours_saisis(f) as nat)
            + " jours – "@ + ecriture_arrondie(jours_saisis(f) * tarif_saisi(f, app.voitures@)->0)
            + " DA"@,
    }
}

/// Ajoute `n` écrit sur au moins quatre chiffres.
fn ecrire_4(n: u64, sortie: &mut String)
    ensures
        final(sortie)@ == old(sortie)@ + ecriture_4(n as nat),
{
    let ghost e = ecriture_naturel(n as nat);
    let zeros: usize = if n < 10 {
        3
    } else if n < 100 {
        2
    } else if n < 1000 {
        1
    } else {
        0
    };
    proof {
        lemme_longueur_ecriture(n as nat);
    }
    let mut i: usize = 0;
    while i < zeros
        invariant
            i <= zeros,
            sortie@ == old(sortie)@ + Seq::new(i as nat, |k: int| '0'),
        decreases zeros - i,
    {
        sortie.append("0");
        proof {
            reveal_strlit("0");
            assert(Seq::new((i + 1) as nat, |k: int| '0') =~= Seq::new(i as nat, |k: int| '0')
                + seq!['0']);
        }
        i = i + 1;
    }
    ecrire_naturel(n as u128, sortie);
    assert(Seq::new(zeros as nat, |k: int| '0') + e =~= ecriture_4(n as nat));
}

/// Longueur de l'écriture décimale des petits nombres.
pub proof fn lemme_longueur_ecriture(n: nat)
    ensures
        n < 10 ==> ecriture_naturel(n).len() == 1,
        10 <= n < 100 ==> ecriture_naturel(n).len() == 2,
        100 <= n < 1000 ==> ecriture_naturel(n).len() == 3,
        n >= 1000 ==> ecriture_naturel(n).len() >= 4,
    decreases n,
{
    if n >= 10 {
        lemme_longueur_ecriture(n / 10);
    }
}

impl App {
    /// Remet le formulaire de contrat à zéro pour le jour `t` (l'agent reste).
    pub fn vider_formulaire(&mut self, t: Date)
        requires
            jour_valide(t.jour as int),
        ensures
            formulaire_vide(final(self).formulaire, old(self).formulaire.agent@, t.jour as int),
            *final(self) == (App { formulaire: final(self).formulaire, ..*old(self) }),
    {
        let agent = self.formulaire.agent.clone();
        let mut f = nouveau_formulaire(t);
        f.agent = agent;
        self.formulaire = f;
    }

    /// Numéro de contrat proposé pour l'année `annee`.
    pub fn numero_pour_annee(&self, annee: i32) -> (r: String)
        requires
            max_id_contrats(self.contrats@) < u64::MAX,
        ensures
            r@ == numero_propose(annee as int, max_id_contrats(self.contrats@) + 1),
    {
        let mut r = String::from_str("IAM-");
        let a = entier_en_texte(annee as i128);
        r.append(a.as_str());
        r.append("-");
        ecrire_4(self.prochain_id_contrat(), &mut r);
        r
    }

    /// Numéro de contrat proposé le jour `t`, pour l'année de `t`.
    pub fn numero_suggere(&self, t: Date) -> (r: String)
        requires
            jour_valide(t.jour as int),
            max_id_contrats(self.contrats@) < u64::MAX,
        ensures
            r@ == numero_propose(annee_mois(t.jour as int).0, max_id_contrats(self.contrats@) + 1),
    {
        let (a, _) = annee_et_mois(t);
        self.numero_pour_annee(a)
    }
}


/// Les dates ISO enregistrées se relisent en les dates saisies.
pub open spec fn dates_relues(c: Contrat, f: FormulaireContrat) -> bool {
    &&& date_analysee(c.date_debut@, format_iso()) == date_saisie(f.debut@)
    &&& date_analysee(c.date_fin@, format_iso()) == date_saisie(f.fin@)
}

/// Effet attendu d'un enregistrement réussi sur la liste des contrats.
pub open spec fn contrats_apres_enregistrement(avant: App, apres: Seq<Contrat>, t: int) -> bool {
    let cs = avant.contrats@;
    match avant.formulaire.en_edition {
        Some(e) => {
            &&& apres.len() == cs.len()
            &&& forall|k: int| 0 <= k < cs.len() && k != e ==> apres[k] == cs[k]
            &&& contrat_saisi(apres[e as int], avant, t)
            &&& dates_relues(apres[e as int], avant.formulaire)
            &&& apres[e as int].id == cs[e as int].id
            &&& apres[e as int].statut == cs[e as int].statut
        },
        None => {
            &&& apres.len() == cs.len() + 1
            &&& forall|k: int| 0 <= k < cs.len() ==> apres[k] == cs[k]
            &&& contrat_saisi(apres[cs.len() as int], avant, t)
            &&& dates_relues(apres[cs.len() as int], avant.formulaire)
            &&& apres[cs.len() as int].id == max_id_contrats(cs) + 1
            &&& apres[cs.len() as int].statut@ == "Actif"@
        },
    }
}

/// Effet de l'enregistrement du contrat saisi le jour `t`.
pub open spec fn contrat_enregistre(avant: App, apres: App, t: int, sauver: bool) -> bool {
    &&& sauver == (erreur_enregistrement(avant, t) is None)
    &&& match erreur_enregistrement(avant, t) {
        Some(m) => {
            &&& apres.formulaire.msg@ == m
            &&& apres.formulaire == (FormulaireContrat {
                msg: apres.formulaire.msg,
                ok: false,
                ..avant.formulaire
            })
            &&& apres == (App { formulaire: apres.formulaire, ..avant })
        },
        None => {
            &&& contrats_apres_enregistrement(avant, apres.contrats@, t)
            &&& formulaire_vide_sauf_message(
                apres.formulaire,
                avant.formulaire.agent@,
                t,
            )
            &&& apres.formulaire.msg@ == message_enregistrement(avant, t)
            &&& apres.formulaire.ok
            &&& apres == (App {
                contrats: apres.contrats,
                formulaire: apres.formulaire,
                ..avant
            })
        },
    }
}

impl App {
    /// Refus opposé au contrat saisi le jour `t` : le message d'erreur, ou
    /// `None` s'il peut être enregistré.
    pub fn refus_enregistrement(&self, t: Date) -> (r: Option<&'static str>)
        requires
            jour_valide(t.jour as int),
            max_id_contrats(self.contrats@) < u64::MAX,
        ensures
            match r {
                Some(m) => erreur_enregistrement(*self, t.jour as int) == Some(m@),
                None => erreur_enregistrement(*self, t.jour as int) is None,
            },
    {
        let ghost avant = *self;
        let ghost tj = t.jour as int;
        let nv = self.voitures.len();
        let fv = self.formulaire.voiture;
        if fv == 0 && est_blanc_texte(self.formulaire.voiture_note.as_str()) {
            return Some("Sélectionnez un véhicule ou décrivez le type.");
        }
        if est_blanc_texte(self.formulaire.client.as_str()) {
            return Some("Le nom du client est obligatoire.");
        }
        if est_blanc_texte(self.formulaire.agent.as_str()) {
            return Some("L'agent commercial est obligatoire.");
        }
        let debut = match parse_date(self.formulaire.debut.as_str()) {
            Some(d) => d,
            None => {
                return Some("Date de début invalide (JJ/MM/AAAA).");
            },
        };
        let fin = match parse_date(self.formulaire.fin.as_str()) {
            Some(d) => d,
            None => {
                return Some("Date de fin invalide (JJ/MM/AAAA).");
            },
        };
        if debut.jour > fin.jour {
            return Some("La date de début doit être avant la date de fin.");
        }
        let choisie = fv >= 1 && fv <= nv;
        if self.tarif_du_formulaire().is_none() {
            return Some("Prix par jour invalide.");
        }
        let num = self.numero_du_formulaire(t);
        proof {
            if avant.formulaire.en_edition is None && exists|k: int|
                0 <= k < avant.contrats@.len() && (#[trigger] avant.contrats@[k]).numero@
                    == numero_retenu(avant.formulaire, avant.contrats@, tj) {
                assert(erreur_enregistrement(avant, tj) == Some("Ce numéro de contrat existe déjà."@));
            }
        }
        if self.formulaire.en_edition.is_none() {
            let mut i: usize = 0;
            while i < self.contrats.len()
                invariant
                    0 <= i <= self.contrats.len(),
                    *self == avant,
                    tj == t.jour as int,
                    self.formulaire.en_edition is None,
                    num@ == numero_retenu(avant.formulaire, avant.contrats@, tj),
                    (exists|k: int|
                        0 <= k < avant.contrats@.len() && (#[trigger] avant.contrats@[k]).numero@
                            == numero_retenu(avant.formulaire, avant.contrats@, tj)) ==> erreur_enregistrement(avant, tj) == Some("Ce numéro de contrat existe déjà."@),
                    forall|k: int| 0 <= k < i ==> (#[trigger] self.contrats@[k]).numero@ != num@,
                decreases self.contrats.len() - i,
            {
                if egal(self.contrats[i].numero.as_str(), num.as_str()) {
                    assert(avant.contrats@[i as int].numero@ == num@);
                    return Some("Ce numéro de contrat existe déjà.");
                }
                i = i + 1;
            }
        }
        if choisie {
            let exclu: Option<u64> = match self.formulaire.en_edition {
                Some(e) => if e < self.contrats.len() {
                    Some(self.contrats[e].id)
                } else {
                    None
                },
                None => None,
            };
            assert(exclu == contrat_exclu(avant.formulaire, avant.contrats@));
            if !self.est_disponible(self.voitures[fv - 1].id, debut, fin, exclu) {
                return Some("Ce véhicule est déjà loué sur cette période !");
            }
        }
        None
    }

    /// Tarif journalier saisi (voir `tarif_saisi`).
    fn tarif_du_formulaire(&self) -> (r: Option<i64>)
        ensures
            match r {
                Some(x) => tarif_saisi(self.formulaire, self.voitures@) == Some(x as int),
                None => tarif_saisi(self.formulaire, self.voitures@) is None,
            },
    {
        let fv = self.formulaire.voiture;
        if est_blanc_texte(self.formulaire.tarif.as_str()) {
            if fv >= 1 && fv <= self.voitures.len() {
                Some(self.voitures[fv - 1].tarif_jour)
            } else {
                None
            }
        } else {
            let tt = rogner(self.formulaire.tarif.as_str());
            match lire_montant(tt.as_str()) {
                Some(x) => if x > 0 {
                    Some(x)
                } else {
                    None
                },
                None => None,
            }
        }
    }

    /// Numéro retenu pour le contrat saisi le jour `t` (voir `numero_retenu`).
    fn numero_du_formulaire(&self, t: Date) -> (r: String)
        requires
            jour_valide(t.jour as int),
            max_id_contrats(self.contrats@) < u64::MAX,
        ensures
            r@ == numero_retenu(self.formulaire, self.contrats@, t.jour as int),
    {
        if est_blanc_texte(self.formulaire.numero.as_str()) {
            let (a, _) = annee_et_mois(t);
            self.numero_pour_annee(a)
        } else {
            rogner(self.formulaire.numero.as_str())
        }
    }

    /// Enregistre le contrat saisi (création, ou modification du contrat en
    /// édition) le jour `t`. Rend vrai si la liste des contrats a changé (elle
    /// est alors à sauvegarder). Un contrat en édition hors de la liste n'est
    /// admis que si la saisie est refusée.
    pub fn enregistrer_contrat(&mut self, t: Date) -> (sauver: bool)
        requires
            jour_valide(t.jour as int),
            max_id_contrats(old(self).contrats@) < u64::MAX,
            old(self).formulaire.en_edition matches Some(i) ==> i < old(self).contrats.len()
                || erreur_enregistrement(*old(self), t.jour as int) is Some,
        ensures
            contrat_enregistre(*old(self), *final(self), t.jour as int, sauver),
    {
        let ghost avant = *self;
        let ghost tj = t.jour as int;
        if let Some(m) = self.refus_enregistrement(t) {
            return self.erreur_formulaire(m);
        }
        let nv = self.voitures.len();
        let fv = self.formulaire.voiture;
        let debut = parse_date(self.formulaire.debut.as_str()).unwrap();
        let fin = parse_date(self.formulaire.fin.as_str()).unwrap();
        let choisie = fv >= 1 && fv <= nv;
        let tarif = self.tarif_du_formulaire().unwrap();
        let paye = montant_ou_zero_exec(self.formulaire.montant_paye.as_str());
        let num = self.numero_du_formulaire(t);
        let km_s = montant_ou_zero_exec(self.formulaire.km_dep.as_str());
        let km_e = montant_ou_zero_exec(self.formulaire.km_ret.as_str());
        let jours: i64 = if fin.jour as i64 - debut.jour as i64 >= 1 {
            fin.jour as i64 - debut.jour as i64
        } else {
            1
        };
        assert(erreur_enregistrement(avant, tj) is None);
        let voit_modele = if choisie {
            self.voitures[fv - 1].modele.clone()
        } else {
            let mut m = String::from_str("À spécifier: ");
            m.append(self.formulaire.voiture_note.as_str());
            m
        };
        let voit_id: u64 = if choisie {
            self.voitures[fv - 1].id
        } else {
            0
        };
        let voit_plaque = if choisie {
            self.voitures[fv - 1].plaque.clone()
        } else {
            String::from_str("À définir")
        };
        let mut msg = String::from_str("Contrat ");
        msg.append(num.as_str());
        let (id, statut) = match self.formulaire.en_edition {
            Some(e) => (self.contrats[e].id, self.contrats[e].statut.clone()),
            None => (self.prochain_id_contrat(), String::from_str("Actif")),
        };
        let c = Contrat {
            id,
            numero: num,
            voiture_id: voit_id,
            voiture_modele: voit_modele,
            voiture_plaque: voit_plaque,
            client_nom: rogner(self.formulaire.client.as_str()),
            client_tel: rogner(self.formulaire.tel.as_str()),
            agent: rogner(self.formulaire.agent.as_str()),
            date_debut: stocker_date(debut),
            date_fin: stocker_date(fin),
            heure_debut: rogner(self.formulaire.heure_debut.as_str()),
            heure_fin: rogner(self.formulaire.heure_fin.as_str()),
            km_depart: km_s,
            km_retour: km_e,
            tarif_jour: tarif,
            notes: rogner(self.formulaire.notes.as_str()),
            statut,
            montant_paye: paye,
            modifiable_note: rogner(self.formulaire.voiture_note.as_str()),
        };
        assert(contrat_saisi(c, avant, tj));
        assert(dates_relues(c, avant.formulaire));
        match self.formulaire.en_edition {
            Some(e) => {
                self.contrats.set(e, c);
                msg.append(" modifié avec succès.");
            },
            None => {
                self.contrats.push(c);
                msg.append(" enregistré. ");
                let jt = naturel_de(jours);
                msg.append(jt.as_str());
                msg.append(" jours – ");
                proof {
                    assert(-191491528 * 0x8000_0000_0000_0000 <= jours * tarif <= 191491528
                        * 0x8000_0000_0000_0000) by (nonlinear_arith)
                        requires
                            1 <= jours <= 191491528,
                            -0x8000_0000_0000_0000 <= tarif < 0x8000_0000_0000_0000,
                    ;
                }
                let m = texte_arrondi(jours as i128 * tarif as i128);
                msg.append(m.as_str());
                msg.append(" DA");
            },
        }
        assert(contrats_apres_enregistrement(avant, self.contrats@, tj));
        self.vider_formulaire(t);
        self.formulaire.msg = msg;
        self.formulaire.ok = true;
        true
    }

    /// Signale une erreur dans le formulaire de contrat : rien d'autre ne change.
    fn erreur_formulaire(&mut self, m: &str) -> (r: bool)
        ensures
            !r,
            final(self).formulaire.msg@ == m@,
            final(self).formulaire == (FormulaireContrat {
                msg: final(self).formulaire.msg,
                ok: false,
                ..old(self).formulaire
            }),
            *final(self) == (App { formulaire: final(self).formulaire, ..*old(self) }),
    {
        self.formulaire.msg = String::from_str(m);
        self.formulaire.ok = false;
        false
    }
}

/// Montant saisi, zéro s'il ne se lit pas.
fn montant_ou_zero_exec(s: &str) -> (r: i64)
    ensures
        r == montant_ou_zero(s@),
{
    let t = rogner(s);
    match lire_montant(t.as_str()) {
        Some(x) => x,
        None => 0,
    }
}

/// Écriture décimale d'un entier positif.
fn naturel_de(n: i64) -> (r: String)
    requires
        n >= 0,
    ensures
        r@ == ecriture_naturel(n as nat),
{
    let mut r = String::new();
    ecrire_naturel(n as u128, &mut r);
    r
}

} // verus!
