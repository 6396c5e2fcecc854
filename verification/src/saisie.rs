//! Page de saisie d'un contrat : choix de la voiture (liste triée par modèle
//! et filtrée), libellé du choix, tarif repris de la voiture et aperçu du prix.
use vstd::prelude::*;
use vstd::string::*;
use crate::date::{Date, date_saisie, parse_date, ecart_jours};
use crate::modeles::{Voiture, ecart_max};
use crate::montant::{montant_lu, lire_montant, ecriture_decimale, texte_decimal};
use crate::texte::{rogne, rogner, est_blanc, est_blanc_texte, minuscules, en_minuscules, correspond,
    correspond_texte, lex_inf, inferieur};
use crate::agence::{App, FormulaireContrat};
use crate::formulaire::{voiture_choisie, montant_ou_zero};

verus! {

/// Clé de tri d'une voiture du parc : son modèle en minuscules.
pub open spec fn cle_modele(vs: Seq<Voiture>, i: usize) -> Seq<char> {
    minuscules(vs[i as int].modele@)
}

/// Place d'insertion du rang `i` dans `r` à partir de `k` : le premier rang
/// dont la clé est strictement plus grande.
pub open spec fn place_modele(vs: Seq<Voiture>, r: Seq<usize>, i: usize, k: int) -> int
    decreases r.len() - k,
{
    if k >= r.len() || k < 0 {
        r.len() as int
    } else if lex_inf(cle_modele(vs, i), cle_modele(vs, r[k])) {
        k
    } else {
        place_modele(vs, r, i, k + 1)
    }
}

/// Rangs des `n` premières voitures triés par modèle (en minuscules), de façon
/// stable : chaque rang est inséré, dans l'ordre du parc, après ceux de clé
/// inférieure ou égale.
pub open spec fn tri_modele(vs: Seq<Voiture>, n: int) -> Seq<usize>
    decreases n,
{
    if n <= 0 {
        Seq::empty()
    } else {
        let avant = tri_modele(vs, n - 1);
        avant.insert(place_modele(vs, avant, (n - 1) as usize, 0), (n - 1) as usize)
    }
}

/// La voiture de rang `i` répond à la recherche `q` (déjà en minuscules) sur
/// le modèle ou la plaque ; toute voiture répond à une recherche vide.
pub open spec fn repond_choix(vs: Seq<Voiture>, q: Seq<char>) -> spec_fn(usize) -> bool {
    |i: usize| q.len() == 0 || correspond(vs[i as int].modele@, q) || correspond(vs[i as int].plaque@, q)
}

/// Voitures proposées au choix : rangs triés par modèle puis filtrés par la
/// recherche saisie (en minuscules).
pub open spec fn choix_proposes(app: App) -> Seq<usize> {
    tri_modele(app.voitures@, app.voitures@.len() as int).filter(
        repond_choix(app.voitures@, minuscules(app.formulaire.voiture_search@)),
    )
}

/// Libellé du choix de voiture : la voiture choisie (« modèle (plaque) »),
/// sinon le type décrit entre chevrons, sinon l'invitation à choisir.
pub open spec fn libelle_choix(f: FormulaireContrat, vs: Seq<Voiture>) -> Seq<char> {
    if f.voiture == 0 || f.voiture > vs.len() {
        if f.voiture_note@.len() == 0 {
            "-- Choisir un véhicule --"@
        } else {
            ">> "@ + f.voiture_note@ + " <<"@
        }
    } else {
        vs[f.voiture - 1].modele@ + " ("@ + vs[f.voiture - 1].plaque@ + ")"@
    }
}

/// Aperçu du prix : jours, tarif, total, payé et reste, si une voiture est
/// choisie (ou un type décrit), si les deux dates se lisent dans l'ordre et si
/// le tarif se lit.
pub open spec fn apercu(f: FormulaireContrat, vs: Seq<Voiture>) -> Option<(int, int, int, int, int)> {
    let s = date_saisie(f.debut@);
    let e = date_saisie(f.fin@);
    let rate = montant_lu(rogne(f.tarif@));
    if (voiture_choisie(f, vs) || f.voiture_note@.len() > 0) && s is Some && e is Some && rate is Some
        && s->0 <= e->0 {
        let jours = if e->0 - s->0 >= 1 {
            e->0 - s->0
        } else {
            1
        };
        let total = jours * rate->0;
        let paye = montant_ou_zero(f.montant_paye@);
        Some((jours, rate->0 as int, total, paye, if paye >= total {
            0
        } else {
            total - paye
        }))
    } else {
        None
    }
}

/// Aperçu du prix d'un contrat en cours de saisie.
pub struct Apercu {
    pub jours: i64,
    /// Tarif journalier, en centimes.
    pub tarif: i64,
    /// Total, en centimes.
    pub total: i128,
    /// Montant payé, en centimes.
    pub paye: i64,
    /// Reste à payer, en centimes.
    pub reste: i128,
}

impl App {
    /// Rangs des voitures proposées au choix : triés par modèle (en
    /// minuscules, tri stable) puis filtrés par la recherche.
    pub fn choix_voitures(&self) -> (r: Vec<usize>)
        ensures
            r@ == choix_proposes(*self),
    {
        let vs = &self.voitures;
        let n = vs.len();
        let mut cles: Vec<String> = Vec::new();
        let mut i: usize = 0;
        while i < n
            invariant
                n == vs.len(),
                0 <= i <= n,
                cles@.len() == i,
                forall|k: int| 0 <= k < i ==> (#[trigger] cles@[k])@ == cle_modele(vs@, k as usize),
            decreases n - i,
        {
            cles.push(en_minuscules(vs[i].modele.as_str()));
            i = i + 1;
        }
        let mut t: Vec<usize> = Vec::new();
        let mut j: usize = 0;
        while j < n
            invariant
                n == vs.len(),
                cles@.len() == n,
                forall|k: int| 0 <= k < n ==> (#[trigger] cles@[k])@ == cle_modele(vs@, k as usize),
                0 <= j <= n,
                t@ == tri_modele(vs@, j as int),
                t@.len() == j,
                forall|k: int| 0 <= k < t@.len() ==> #[trigger] t@[k] < j,
            decreases n - j,
        {
            let mut k: usize = 0;
            proof {
                lemme_place_bornee(vs@, t@, j, 0);
            }
            while k < t.len() && !inferieur(cles[j].as_str(), cles[t[k]].as_str())
                invariant
                    n == vs.len(),
                    cles@.len() == n,
                    forall|m: int| 0 <= m < n ==> (#[trigger] cles@[m])@ == cle_modele(vs@, m as usize),
                    j < n,
                    0 <= k <= t@.len(),
                    forall|m: int| 0 <= m < t@.len() ==> #[trigger] t@[m] < j,
                    place_modele(vs@, t@, j, 0) == place_modele(vs@, t@, j, k as int),
                decreases t@.len() - k,
            {
                k = k + 1;
            }
            let ghost t0 = t@;
            t.insert(k, j);
            proof {
                assert(t@ == t0.insert(k as int, j));
                assert forall|m: int| 0 <= m < t@.len() implies #[trigger] t@[m] < j + 1 by {
                    if m < k {
                        assert(t@[m] == t0[m]);
                    } else if m > k {
                        assert(t@[m] == t0[m - 1]);
                    }
                }
                assert(place_modele(vs@, t0, j, 0) == k);
            }
            j = j + 1;
        }
        let q = en_minuscules(self.formulaire.voiture_search.as_str());
        let ghost p = repond_choix(vs@, q@);
        let mut r: Vec<usize> = Vec::new();
        let mut m: usize = 0;
        proof {
            crate::outils::lemme_filtre_vide(t@, p);
        }
        while m < t.len()
            invariant
                n == vs.len(),
                t@.len() == n,
                forall|k: int| 0 <= k < t@.len() ==> #[trigger] t@[k] < n,
                0 <= m <= t@.len(),
                p == repond_choix(vs@, q@),
                r@ == t@.take(m as int).filter(p),
            decreases t@.len() - m,
        {
            proof {
                crate::outils::lemme_filtre_pas(t@, p, m as int);
            }
            let x = t[m];
            let v = &vs[x];
            let qs = q.as_str();
            if qs.unicode_len() == 0 || correspond_texte(v.modele.as_str(), qs) || correspond_texte(
                v.plaque.as_str(),
                qs,
            ) {
                r.push(x);
            }
            m = m + 1;
        }
        assert(t@.take(t@.len() as int) =~= t@);
        r
    }

    /// Libellé du choix de voiture.
    pub fn libelle_voiture_choisie(&self) -> (r: String)
        ensures
            r@ == libelle_choix(self.formulaire, self.voitures@),
    {
        let f = &self.formulaire;
        if f.voiture == 0 || f.voiture > self.voitures.len() {
            if f.voiture_note.as_str().unicode_len() == 0 {
                String::from_str("-- Choisir un véhicule --")
            } else {
                let mut r = String::from_str(">> ");
                r.append(f.voiture_note.as_str());
                r.append(" <<");
                r
            }
        } else {
            let v = &self.voitures[f.voiture - 1];
            let mut r = String::from_str(v.modele.as_str());
            r.append(" (");
            r.append(v.plaque.as_str());
            r.append(")");
            r
        }
    }

    /// Après un changement de voiture dans la liste (l'ancien choix étant
    /// `ancienne`) : l'erreur de voiture est levée et le message effacé si
    /// l'enregistrement n'a pas réussi ; puis, si le tarif est vide et qu'une
    /// voiture est choisie, son tarif est repris.
    pub fn apres_choix_voiture(&mut self, ancienne: usize)
        ensures
            ({
                let f0 = old(self).formulaire;
                let f = final(self).formulaire;
                let change = f0.voiture != ancienne;
                &&& f.car_error_cleared == (f0.car_error_cleared || change)
                &&& f.msg@ == (if change && !f0.ok {
                    Seq::<char>::empty()
                } else {
                    f0.msg@
                })
                &&& f.tarif@ == (if est_blanc(f0.tarif@) && voiture_choisie(f0, old(self).voitures@) {
                    ecriture_decimale(old(self).voitures@[f0.voiture - 1].tarif_jour as int)
                } else {
                    f0.tarif@
                })
                &&& f == (FormulaireContrat {
                    car_error_cleared: f.car_error_cleared,
                    msg: f.msg,
                    tarif: f.tarif,
                    ..f0
                })
            }),
            *final(self) == (App { formulaire: final(self).formulaire, ..*old(self) }),
    {
        if self.formulaire.voiture != ancienne {
            self.formulaire.car_error_cleared = true;
            if !self.formulaire.ok {
                self.formulaire.msg = String::new();
            }
        }
        let v = self.formulaire.voiture;
        if est_blanc_texte(self.formulaire.tarif.as_str()) && v > 0 && v <= self.voitures.len() {
            self.formulaire.tarif = texte_decimal(self.voitures[v - 1].tarif_jour);
        }
    }

    /// Aperçu du prix du contrat en cours de saisie.
    pub fn apercu_prix(&self) -> (r: Option<Apercu>)
        ensures
            match apercu(self.formulaire, self.voitures@) {
                Some((j, t, tot, p, rs)) => r matches Some(a) && a.jours == j && a.tarif == t
                    && a.total == tot && a.paye == p && a.reste == rs,
                None => r is None,
            },
    {
        let f = &self.formulaire;
        let vok = f.voiture >= 1 && f.voiture <= self.voitures.len();
        let s = parse_date(f.debut.as_str());
        let e = parse_date(f.fin.as_str());
        let tt = rogner(f.tarif.as_str());
        let rate = lire_montant(tt.as_str());
        let tp = rogner(f.montant_paye.as_str());
        let paye: i64 = match lire_montant(tp.as_str()) {
            Some(x) => x,
            None => 0,
        };
        if !(vok || f.voiture_note.as_str().unicode_len() > 0) {
            return None;
        }
        match (s, e, rate) {
            (Some(d), Some(fi), Some(tarif)) => {
                if d.jour > fi.jour {
                    return None;
                }
                let ecart = ecart_jours(d, fi);
                let jours: i64 = if ecart >= 1 {
                    ecart
                } else {
                    1
                };
                proof {
                    assert(jours <= ecart_max());
                    let tj = tarif as int;
                    assert(-ecart_max() * 0x8000_0000_0000_0000 <= jours * tj <= ecart_max()
                        * 0x8000_0000_0000_0000) by (nonlinear_arith)
                        requires
                            1 <= jours <= ecart_max(),
                            -0x8000_0000_0000_0000 <= tj < 0x8000_0000_0000_0000,
                    ;
                }
                let total = jours as i128 * tarif as i128;
                let reste = if paye as i128 >= total {
                    0
                } else {
                    total - paye as i128
                };
                Some(Apercu { jours, tarif, total, paye, reste })
            },
            _ => None,
        }
    }
}

/// La place d'insertion reste dans les bornes de la liste.
proof fn lemme_place_bornee(vs: Seq<Voiture>, r: Seq<usize>, i: usize, k: int)
    requires
        0 <= k <= r.len(),
    ensures
        k <= place_modele(vs, r, i, k) <= r.len(),
    decreases r.len() - k,
{
    if k < r.len() && !lex_inf(cle_modele(vs, i), cle_modele(vs, r[k])) {
        lemme_place_bornee(vs, r, i, k + 1);
    }
}

} // verus!
