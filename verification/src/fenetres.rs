//! Fenêtres de détail d'une voiture et d'un contrat, retour à la page
//! précédente et choix du thème.
use vstd::prelude::*;
use vstd::string::*;
use crate::theme::{Rgb, Theme, rouge_iam, vert, ambre, indigo, couleur_rouge_iam, couleur_vert,
    couleur_ambre, couleur_indigo, palette_sombre, palette_claire, melange};
use crate::date::{Date, jour_valide, affichage_date, afficher_date};
use crate::modeles::{Contrat, Voiture, statut_termine, reste_contrat, chevauche_spec, absent,
    chercher_ident, sans_ident, retirer_ident};
use crate::texte::{egal, minuscules, en_minuscules, correspond, correspond_texte};
use crate::agence::{App, Onglet, ModalVoiture, ModalContrat};
use crate::statut::{historique, est_futur};
use crate::outils::{lemme_filtre_pas, lemme_filtre_vide};

verus! {

/// Le contrat répond à la recherche `q` (déjà en minuscules) de l'historique
/// d'une voiture : numéro, client, téléphone ou agent ; tout contrat répond à
/// une recherche vide.
pub open spec fn repond_historique(q: Seq<char>) -> spec_fn(Contrat) -> bool {
    |c: Contrat|
        q.len() == 0 || correspond(c.numero@, q) || correspond(c.client_nom@, q) || correspond(
            c.client_tel@,
            q,
        ) || correspond(c.agent@, q)
}

/// Historique affiché dans la fenêtre d'une voiture le jour `t` : ses
/// contrats, triés, qui répondent à la recherche saisie (en minuscules).
pub open spec fn historique_affiche(app: App, t: int) -> Seq<Contrat> {
    historique(app.contrats@, app.modal_voiture.voiture_id, t).filter(
        repond_historique(minuscules(app.modal_voiture.histo_recherche@)),
    )
}

/// Couleur d'une carte teintée par `tint` avec l'opacité `alpha`.
pub open spec fn teinte(theme: Theme, tint: Rgb, alpha: u8) -> Rgb {
    Rgb {
        r: melange(theme.carte.r, tint.r, alpha) as u8,
        g: melange(theme.carte.g, tint.g, alpha) as u8,
        b: melange(theme.carte.b, tint.b, alpha) as u8,
    }
}

/// Fond d'une carte d'historique selon sa couleur : teinte rouge, ambre ou
/// verte pour ces couleurs, indigo pour toute autre.
pub open spec fn fond_selon(theme: Theme, col: Rgb) -> Rgb {
    if col == couleur_rouge_iam() {
        teinte(theme, couleur_rouge_iam(), 60)
    } else if col == couleur_ambre() {
        teinte(theme, couleur_ambre(), 60)
    } else if col == couleur_vert() {
        teinte(theme, couleur_vert(), 55)
    } else {
        teinte(theme, couleur_indigo(), 40)
    }
}

/// Couleur et titre d'un contrat de l'historique le jour `t` : en période,
/// futur, impayé, terminé, ou simple contrat.
pub open spec fn classe_historique(c: Contrat, t: int, theme: Theme) -> (Rgb, Seq<char>) {
    if chevauche_spec(c, t, t) {
        (couleur_rouge_iam(), "En période"@)
    } else if est_futur(c, t) {
        (couleur_indigo(), "Futur"@)
    } else if reste_contrat(c) > 0 {
        (couleur_ambre(), "Impayé"@)
    } else if c.statut@ == statut_termine() {
        (theme.attenue, "Terminé"@)
    } else {
        (couleur_vert(), "Contrat"@)
    }
}

/// Fond d'une carte d'historique selon sa couleur.
fn fond_de(theme: &Theme, col: Rgb) -> (r: Rgb)
    ensures
        r == fond_selon(*theme, col),
{
    if col == rouge_iam() {
        theme.tinted_card(rouge_iam(), 60)
    } else if col == ambre() {
        theme.tinted_card(ambre(), 60)
    } else if col == vert() {
        theme.tinted_card(vert(), 55)
    } else {
        theme.tinted_card(indigo(), 40)
    }
}

/// État affiché d'une voiture : « Bon état » s'il n'est pas renseigné.
pub open spec fn etat_affiche(v: Voiture) -> Seq<char> {
    if v.etat@.len() == 0 {
        "Bon état"@
    } else {
        v.etat@
    }
}

/// Date d'un contrat affichée avec son heure, si elle est renseignée.
pub open spec fn date_heure(date: Seq<char>, heure: Seq<char>) -> Seq<char> {
    if heure.len() == 0 {
        affichage_date(date)
    } else {
        affichage_date(date) + " à "@ + heure
    }
}

/// État affiché d'une voiture.
pub fn texte_etat(v: &Voiture) -> (r: String)
    ensures
        r@ == etat_affiche(*v),
{
    if v.etat.as_str().unicode_len() == 0 {
        String::from_str("Bon état")
    } else {
        v.etat.clone()
    }
}

/// Date ISO affichée au format « JJ/MM/AAAA », suivie de « à » et de l'heure
/// si elle est renseignée.
pub fn texte_date_heure(date: &str, heure: &str) -> (r: String)
    ensures
        r@ == date_heure(date@, heure@),
{
    let mut r = afficher_date(date);
    if heure.unicode_len() > 0 {
        r.append(" à ");
        r.append(heure);
    }
    r
}

/// L'application revenue à la page précédente, s'il y en a une ; la page
/// précédente est alors oubliée.
pub open spec fn retour(a: App) -> App {
    match a.onglet_prec {
        Some(o) => App { onglet: o, onglet_prec: None, ..a },
        None => a,
    }
}

/// L'application avec le thème clair et le thème sombre échangés.
pub open spec fn bascule(a: App) -> App {
    App { dark_mode: !a.dark_mode, ..a }
}

impl App {
    /// Ouvre la fenêtre de détail de la voiture `vid`, recherche vide.
    pub fn ouvrir_voiture(&mut self, vid: u64)
        ensures
            final(self).modal_voiture.visible,
            final(self).modal_voiture.voiture_id == vid,
            final(self).modal_voiture.histo_recherche@.len() == 0,
            *final(self) == (App { modal_voiture: final(self).modal_voiture, ..*old(self) }),
    {
        self.modal_voiture = ModalVoiture { visible: true, voiture_id: vid, histo_recherche: String::new() };
    }

    /// Ouvre la fenêtre de détail du contrat `cid`.
    pub fn ouvrir_contrat(&mut self, cid: u64)
        ensures
            *final(self) == (App {
                modal_contrat: ModalContrat { visible: true, contrat_id: cid },
                ..*old(self)
            }),
    {
        self.modal_contrat = ModalContrat { visible: true, contrat_id: cid };
    }

    /// Ferme les fenêtres de détail dont la voiture ou le contrat n'existe plus.
    pub fn fermer_fenetres_orphelines(&mut self)
        ensures
            final(self).modal_voiture.visible == (old(self).modal_voiture.visible && !absent(
                old(self).voitures@,
                old(self).modal_voiture.voiture_id,
            )),
            final(self).modal_contrat.visible == (old(self).modal_contrat.visible && !absent(
                old(self).contrats@,
                old(self).modal_contrat.contrat_id,
            )),
            *final(self) == (App {
                modal_voiture: ModalVoiture {
                    visible: final(self).modal_voiture.visible,
                    ..old(self).modal_voiture
                },
                modal_contrat: ModalContrat {
                    visible: final(self).modal_contrat.visible,
                    ..old(self).modal_contrat
                },
                ..*old(self)
            }),
    {
        if self.modal_voiture.visible {
            if chercher_ident(&self.voitures, self.modal_voiture.voiture_id).is_none() {
                self.modal_voiture.visible = false;
            }
        }
        if self.modal_contrat.visible {
            if chercher_ident(&self.contrats, self.modal_contrat.contrat_id).is_none() {
                self.modal_contrat.visible = false;
            }
        }
    }

    /// Historique affiché dans la fenêtre de la voiture, le jour `t`.
    pub fn historique_modal_le(&self, t: Date) -> (r: Vec<Contrat>)
        ensures
            r@ == historique_affiche(*self, t.jour as int),
    {
        let l = self.contrats_voiture(self.modal_voiture.voiture_id, t);
        let q = en_minuscules(self.modal_voiture.histo_recherche.as_str());
        let ghost p = repond_historique(q@);
        let mut r: Vec<Contrat> = Vec::new();
        let mut i: usize = 0;
        proof {
            lemme_filtre_vide(l@, p);
        }
        while i < l.len()
            invariant
                0 <= i <= l.len(),
                p == repond_historique(q@),
                r@ == l@.take(i as int).filter(p),
            decreases l.len() - i,
        {
            proof {
                lemme_filtre_pas(l@, p, i as int);
            }
            let c = &l[i];
            let qs = q.as_str();
            if qs.unicode_len() == 0 || correspond_texte(c.numero.as_str(), qs) || correspond_texte(
                c.client_nom.as_str(),
                qs,
            ) || correspond_texte(c.client_tel.as_str(), qs) || correspond_texte(
                c.agent.as_str(),
                qs,
            ) {
                r.push(c.copie());
            }
            i = i + 1;
        }
        assert(l@.take(l.len() as int) =~= l@);
        r
    }

    /// Couleur, titre et fond d'un contrat de l'historique, le jour `t`.
    pub fn classe_historique_le(&self, c: &Contrat, t: Date) -> (r: (Rgb, String, Rgb))
        ensures
            (r.0, r.1@) == classe_historique(*c, t.jour as int, self.theme),
            r.2 == fond_selon(self.theme, r.0),
    {
        let futur = match crate::date::parse_date(c.date_debut.as_str()) {
            Some(d) => d.jour > t.jour,
            None => false,
        };
        let (col, titre) = if c.chevauche(t, t) {
            (rouge_iam(), String::from_str("En période"))
        } else if futur {
            (indigo(), String::from_str("Futur"))
        } else if c.reste_a_payer() > 0 {
            (ambre(), String::from_str("Impayé"))
        } else if egal(c.statut.as_str(), "Terminé") {
            (self.theme.muted(), String::from_str("Terminé"))
        } else {
            (vert(), String::from_str("Contrat"))
        };
        let fond = fond_de(&self.theme, col);
        (col, titre, fond)
    }

    /// Retire les contrats d'identifiant `id` (suppression depuis l'historique).
    pub fn supprimer_contrat_id(&mut self, id: u64)
        ensures
            final(self).contrats@ == sans_ident(old(self).contrats@, id),
            *final(self) == (App { contrats: final(self).contrats, ..*old(self) }),
    {
        retirer_ident(&mut self.contrats, id);
    }

    /// Revient à la page précédente, s'il y en a une.
    pub fn revenir(&mut self)
        ensures
            *final(self) == retour(*old(self)),
    {
        match self.onglet_prec {
            Some(o) => {
                self.onglet = o;
                self.onglet_prec = None;
            },
            None => {},
        }
    }

    /// Passe du thème clair au thème sombre, ou l'inverse.
    pub fn basculer_theme(&mut self)
        ensures
            *final(self) == bascule(*old(self)),
    {
        self.dark_mode = !self.dark_mode;
    }

    /// Applique à la palette le thème choisi.
    pub fn appliquer_theme(&mut self)
        ensures
            *final(self) == (App {
                theme: if old(self).dark_mode {
                    palette_sombre()
                } else {
                    palette_claire()
                },
                ..*old(self)
            }),
    {
        let d = self.dark_mode;
        self.theme.set_theme(d);
    }
}

} // verus!
