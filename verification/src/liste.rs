//! Liste des contrats : filtres (statut, recherche, mois, année), libellés,
//! fin, annulation, suppression et reprise d'un contrat pour modification.
use vstd::prelude::*;
use vstd::string::*;
use crate::theme::{Rgb, rgb, vert, couleur_vert};
use crate::date::{Date, date_analysee, format_iso, date_iso, annee_mois, annee_et_mois, affichage_date,
    afficher_date, se_relit_en};
use crate::modeles::{Contrat, Voiture, statut_actif, statut_termine, statut_annule};
use crate::montant::{ecriture_decimale, texte_decimal};
use crate::nombre::{lecture_entier, lire_i32};
use crate::texte::{egal, rogne, rogner, minuscules, en_minuscules, correspond, correspond_texte,
    contient, contient_spec};
use crate::agence::{App, Onglet, FormulaireContrat, ListeContrats};
use crate::tableau::{debute_apres, debute_au_plus_tard, rangs_desc, choix_voiture, avec_statut};

verus! {

/// Filtre de statut de la liste : 0 tous, 1 actifs commencés, 2 terminés,
/// 3 annulés, 4 réservés ; toute autre valeur garde tout.
pub open spec fn statut_retenu(st: usize, c: Contrat, t: int) -> bool {
    if st == 1 {
        c.statut@ == statut_actif() && debute_au_plus_tard(c, t)
    } else if st == 2 {
        c.statut@ == statut_termine()
    } else if st == 3 {
        c.statut@ == statut_annule()
    } else if st == 4 {
        c.statut@ == statut_actif() && debute_apres(c, t)
    } else {
        true
    }
}

/// Le contrat répond à la recherche `q` (déjà en minuscules) : numéro,
/// client, véhicule ou agent ; tout contrat répond à une recherche vide.
pub open spec fn repond_liste(c: Contrat, q: Seq<char>) -> bool {
    q.len() == 0 || correspond(c.numero@, q) || correspond(c.client_nom@, q) || correspond(
        c.voiture_modele@,
        q,
    ) || correspond(c.agent@, q)
}

/// Année saisie dans le filtre : le texte rogné lu comme entier sur 32 bits.
pub open spec fn annee_saisie(s: Seq<char>) -> Option<int> {
    match lecture_entier(rogne(s)) {
        Some(v) => if i32::MIN <= v <= i32::MAX {
            Some(v)
        } else {
            None
        },
        None => None,
    }
}

/// Le contrat commence (date ISO) le mois `mois` (0 : tout mois) et l'année
/// `annee` (aucune : toute année).
pub open spec fn periode_retenue(c: Contrat, mois: usize, annee: Option<int>) -> bool {
    let d = date_analysee(c.date_debut@, format_iso());
    &&& (mois == 0 || (d matches Some(j) && annee_mois(j).1 == mois))
    &&& (annee is None || (d matches Some(j) && annee_mois(j).0 == annee->0))
}

/// Filtre complet de la liste des contrats le jour `t`.
pub open spec fn garde_liste(l: ListeContrats, t: int) -> spec_fn(Contrat) -> bool {
    |c: Contrat|
        statut_retenu(l.statut, c, t) && repond_liste(c, minuscules(l.recherche@)) && periode_retenue(
            c,
            l.filter_mois,
            annee_saisie(l.filter_annee@),
        )
}

/// Libellé et couleur du statut dans la liste des contrats.
pub open spec fn statut_liste(c: Contrat, attenue: Rgb) -> (Rgb, Seq<char>) {
    if c.statut@ == statut_actif() {
        (couleur_vert(), "Actif"@)
    } else if c.statut@ == statut_termine() {
        (attenue, "Terminé"@)
    } else if c.statut@ == statut_annule() {
        (Rgb { r: 180, g: 30, b: 40 }, "Annulé"@)
    } else {
        (attenue, c.statut@)
    }
}

/// Les notes (en minuscules) parlent d'une livraison à l'aéroport.
pub open spec fn aeroport(notes: Seq<char>) -> bool {
    let n = minuscules(notes);
    contient_spec(n, "aero"@) || contient_spec(n, "aéro"@) || contient_spec(n, "aeroport"@)
        || contient_spec(n, "aéroport"@)
}

/// Livraison à l'aéroport d'après les notes du contrat.
pub fn est_aeroport(notes: &str) -> (r: bool)
    ensures
        r == aeroport(notes@),
{
    let n = en_minuscules(notes);
    contient(n.as_str(), "aero") || contient(n.as_str(), "aéro") || contient(n.as_str(), "aeroport")
        || contient(n.as_str(), "aéroport")
}

/// Le formulaire `f` reprend le contrat `c` (de rang `i`) pour le modifier.
pub open spec fn reprise(f: FormulaireContrat, avant: FormulaireContrat, c: Contrat, i: usize, vs: Seq<Voiture>) -> bool {
    &&& f == (FormulaireContrat {
        numero: f.numero,
        voiture: f.voiture,
        voiture_note: f.voiture_note,
        voiture_search: f.voiture_search,
        client: f.client,
        tel: f.tel,
        agent: f.agent,
        debut: f.debut,
        fin: f.fin,
        km_dep: f.km_dep,
        km_ret: f.km_ret,
        tarif: f.tarif,
        montant_paye: f.montant_paye,
        notes: f.notes,
        msg: f.msg,
        ok: false,
        en_edition: Some(i),
        ..avant
    })
    &&& f.numero@ == c.numero@
    &&& f.voiture == choix_voiture(vs, c.voiture_id)
    &&& f.voiture_note@ == c.modifiable_note@
    &&& f.voiture_search@.len() == 0
    &&& f.client@ == c.client_nom@
    &&& f.tel@ == c.client_tel@
    &&& f.agent@ == c.agent@
    &&& f.debut@ == affichage_date(c.date_debut@)
    &&& f.fin@ == affichage_date(c.date_fin@)
    &&& f.km_dep@ == ecriture_decimale(c.km_depart as int)
    &&& f.km_ret@ == ecriture_decimale(c.km_retour as int)
    &&& f.tarif@ == ecriture_decimale(c.tarif_jour as int)
    &&& f.montant_paye@ == ecriture_decimale(c.montant_paye as int)
    &&& f.notes@ == c.notes@
    &&& f.msg@.len() == 0
}

/// Le filtre de période, évalué sur la date de début d'un contrat.
fn periode_ok(c: &Contrat, mois: usize, annee: Option<i32>) -> (r: bool)
    ensures
        r == periode_retenue(*c, mois, match annee {
            Some(a) => Some(a as int),
            None => None,
        }),
{
    if mois == 0 && annee.is_none() {
        return true;
    }
    match date_iso(c.date_debut.as_str()) {
        Some(d) => {
            let (a, m) = annee_et_mois(d);
            let mois_ok = mois == 0 || m as usize == mois;
            let annee_ok = match annee {
                Some(x) => a == x,
                None => true,
            };
            mois_ok && annee_ok
        },
        None => false,
    }
}

impl App {
    /// Rangs des contrats retenus par les filtres de la liste le jour `t`,
    /// les plus récents d'abord.
    pub fn lignes_contrats_le(&self, t: Date) -> (r: Vec<usize>)
        ensures
            r@ == rangs_desc(self.contrats@, garde_liste(self.liste, t.jour as int), 0),
    {
        let ghost p = garde_liste(self.liste, t.jour as int);
        let q = en_minuscules(self.liste.recherche.as_str());
        let ta = rogner(self.liste.filter_annee.as_str());
        let annee = lire_i32(ta.as_str());
        let st = self.liste.statut;
        let mois = self.liste.filter_mois;
        let mut r: Vec<usize> = Vec::new();
        let mut i: usize = self.contrats.len();
        while i > 0
            invariant
                i <= self.contrats.len(),
                p == garde_liste(self.liste, t.jour as int),
                q@ == minuscules(self.liste.recherche@),
                st == self.liste.statut,
                mois == self.liste.filter_mois,
                (match annee {
                    Some(a) => Some(a as int),
                    None => None,
                }) == annee_saisie(self.liste.filter_annee@),
                r@ == rangs_desc(self.contrats@, p, i as int),
            decreases i,
        {
            i = i - 1;
            let c = &self.contrats[i];
            let actif = egal(c.statut.as_str(), "Actif");
            let statut_ok = if st == 1 {
                actif && match date_iso(c.date_debut.as_str()) {
                    Some(d) => d.jour <= t.jour,
                    None => true,
                }
            } else if st == 2 {
                egal(c.statut.as_str(), "Terminé")
            } else if st == 3 {
                egal(c.statut.as_str(), "Annulé")
            } else if st == 4 {
                actif && match date_iso(c.date_debut.as_str()) {
                    Some(d) => d.jour > t.jour,
                    None => false,
                }
            } else {
                true
            };
            let qs = q.as_str();
            let cherche = qs.unicode_len() == 0 || correspond_texte(c.numero.as_str(), qs)
                || correspond_texte(c.client_nom.as_str(), qs) || correspond_texte(
                c.voiture_modele.as_str(),
                qs,
            ) || correspond_texte(c.agent.as_str(), qs);
            let garde = statut_ok && cherche && periode_ok(c, mois, annee);
            assert(garde == p(self.contrats@[i as int]));
            if garde {
                r.push(i);
            }
        }
        r
    }

    /// Libellé et couleur du statut dans la liste.
    pub fn statut_liste_de(&self, c: &Contrat) -> (r: (Rgb, String))
        ensures
            (r.0, r.1@) == statut_liste(*c, self.theme.attenue),
    {
        if egal(c.statut.as_str(), "Actif") {
            (vert(), String::from_str("Actif"))
        } else if egal(c.statut.as_str(), "Terminé") {
            (self.theme.muted(), String::from_str("Terminé"))
        } else if egal(c.statut.as_str(), "Annulé") {
            (rgb(180, 30, 40), String::from_str("Annulé"))
        } else {
            (self.theme.muted(), c.statut.clone())
        }
    }

    /// Donne le statut `statut` au contrat de rang `i`.
    fn statut_au_rang(&mut self, i: usize, statut: &str)
        requires
            i < old(self).contrats@.len(),
        ensures
            final(self).contrats@.len() == old(self).contrats@.len(),
            avec_statut(old(self).contrats@[i as int], final(self).contrats@[i as int], statut@),
            forall|j: int|
                0 <= j < old(self).contrats@.len() && j != i ==> final(self).contrats@[j]
                    == old(self).contrats@[j],
            *final(self) == (App { contrats: final(self).contrats, ..*old(self) }),
    {
        let c = Contrat { statut: String::from_str(statut), ..self.contrats[i].copie() };
        self.contrats.set(i, c);
    }

    /// Termine le contrat de rang `i`.
    pub fn terminer_contrat(&mut self, i: usize)
        requires
            i < old(self).contrats@.len(),
        ensures
            final(self).contrats@ == old(self).contrats@.update(i as int, final(self).contrats@[i as int]),
            avec_statut(old(self).contrats@[i as int], final(self).contrats@[i as int], statut_termine()),
            *final(self) == (App { contrats: final(self).contrats, ..*old(self) }),
    {
        proof {
            reveal_strlit("Terminé");
        }
        self.statut_au_rang(i, "Terminé");
        assert(self.contrats@ =~= old(self).contrats@.update(i as int, self.contrats@[i as int]));
    }

    /// Annule le contrat de rang `i`.
    pub fn annuler_contrat(&mut self, i: usize)
        requires
            i < old(self).contrats@.len(),
        ensures
            final(self).contrats@ == old(self).contrats@.update(i as int, final(self).contrats@[i as int]),
            avec_statut(old(self).contrats@[i as int], final(self).contrats@[i as int], statut_annule()),
            *final(self) == (App { contrats: final(self).contrats, ..*old(self) }),
    {
        proof {
            reveal_strlit("Annulé");
        }
        self.statut_au_rang(i, "Annulé");
        assert(self.contrats@ =~= old(self).contrats@.update(i as int, self.contrats@[i as int]));
    }

    /// Supprime le contrat de rang `i` (suppression confirmée).
    pub fn supprimer_contrat(&mut self, i: usize)
        requires
            i < old(self).contrats@.len(),
        ensures
            final(self).contrats@ == old(self).contrats@.remove(i as int),
            *final(self) == (App {
                contrats: final(self).contrats,
                liste: ListeContrats { suppr: None, ..old(self).liste },
                ..*old(self)
            }),
    {
        self.contrats.remove(i);
        self.liste.suppr = None;
    }

    /// Reprend le contrat de rang `i` dans le formulaire pour le modifier et
    /// ouvre la page de saisie ; rien ne change si le rang n'existe pas.
    pub fn preparer_modification(&mut self, i: usize)
        ensures
            i >= old(self).contrats@.len() ==> *final(self) == *old(self),
            i < old(self).contrats@.len() ==> {
                &&& reprise(
                    final(self).formulaire,
                    old(self).formulaire,
                    old(self).contrats@[i as int],
                    i,
                    old(self).voitures@,
                )
                &&& se_relit_en(final(self).formulaire.debut@, old(self).contrats@[i as int].date_debut@)
                &&& se_relit_en(final(self).formulaire.fin@, old(self).contrats@[i as int].date_fin@)
                &&& final(self).onglet == Onglet::NouveauContrat
                &&& final(self).onglet_prec == (if old(self).onglet != Onglet::NouveauContrat {
                    Some(old(self).onglet)
                } else {
                    old(self).onglet_prec
                })
                &&& *final(self) == (App {
                    formulaire: final(self).formulaire,
                    onglet: final(self).onglet,
                    onglet_prec: final(self).onglet_prec,
                    ..*old(self)
                })
            },
    {
        if i >= self.contrats.len() {
            return;
        }
        let c = &self.contrats[i];
        let numero = c.numero.clone();
        let voiture = crate::tableau::rang_voiture_de(&self.voitures, c.voiture_id);
        let note = c.modifiable_note.clone();
        let client = c.client_nom.clone();
        let tel = c.client_tel.clone();
        let agent = c.agent.clone();
        let debut = afficher_date(c.date_debut.as_str());
        let fin = afficher_date(c.date_fin.as_str());
        let km_dep = texte_decimal(c.km_depart);
        let km_ret = texte_decimal(c.km_retour);
        let tarif = texte_decimal(c.tarif_jour);
        let paye = texte_decimal(c.montant_paye);
        let notes = c.notes.clone();
        self.formulaire.numero = numero;
        self.formulaire.voiture = voiture;
        self.formulaire.voiture_note = note;
        self.formulaire.voiture_search = String::new();
        self.formulaire.client = client;
        self.formulaire.tel = tel;
        self.formulaire.agent = agent;
        self.formulaire.debut = debut;
        self.formulaire.fin = fin;
        self.formulaire.km_dep = km_dep;
        self.formulaire.km_ret = km_ret;
        self.formulaire.tarif = tarif;
        self.formulaire.montant_paye = paye;
        self.formulaire.notes = notes;
        self.formulaire.msg = String::new();
        self.formulaire.ok = false;
        self.formulaire.en_edition = Some(i);
        self.naviguer(Onglet::NouveauContrat);
    }
}

} // verus!
