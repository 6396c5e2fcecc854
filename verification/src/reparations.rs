//! Réparations : saisie, tri par date, retrait, recherche et coût total.
use vstd::prelude::*;
use vstd::string::*;
use crate::date::{Date, date_saisie, date_ecrite, format_iso, format_jma, jour_valide, parse_date,
    stocker_date, texte_jma};
use crate::modeles::{Reparation, Voiture, max_ident, prochain_identifiant, sans_ident, retirer_ident};
use crate::montant::{montant_lu, lire_montant};
use crate::texte::{rogne, rogner, est_blanc, est_blanc_texte, correspond, correspond_texte, minuscules,
    en_minuscules, lex_inf, inferieur, sans_motif, retirer_motif, remplace_car, remplacer_car};
use crate::agence::{App, FormulaireReparation, valeur_opt};
use crate::outils::{lemme_filtre_pas, lemme_filtre_vide, somme_bornee, valeurs, additionner};

verus! {

/// Place d'insertion de `r` dans `s` à partir de `k` : la première
/// réparation de date strictement antérieure (ordre des textes).
pub open spec fn rang_par_date(s: Seq<Reparation>, r: Reparation, k: int) -> int
    decreases s.len() - k,
{
    if k >= s.len() || k < 0 {
        s.len() as int
    } else if lex_inf(s[k].date@, r.date@) {
        k
    } else {
        rang_par_date(s, r, k + 1)
    }
}

/// Tri stable des réparations par date décroissante (texte de la date).
pub open spec fn tri_par_date(s: Seq<Reparation>) -> Seq<Reparation>
    decreases s.len(),
{
    if s.len() == 0 {
        s
    } else {
        let avant = tri_par_date(s.drop_last());
        avant.insert(rang_par_date(avant, s.last(), 0), s.last())
    }
}

proof fn lemme_rang_borne(s: Seq<Reparation>, r: Reparation, k: int)
    requires
        0 <= k <= s.len(),
    ensures
        k <= rang_par_date(s, r, k) <= s.len(),
    decreases s.len() - k,
{
    if k < s.len() && !lex_inf(s[k].date@, r.date@) {
        lemme_rang_borne(s, r, k + 1);
    }
}

/// Trie les réparations par date décroissante, de façon stable.
pub fn trier_par_date(v: Vec<Reparation>) -> (r: Vec<Reparation>)
    ensures
        r@ == tri_par_date(v@),
{
    let mut r: Vec<Reparation> = Vec::new();
    let mut j: usize = 0;
    assert(v@.take(0) =~= Seq::<Reparation>::empty());
    while j < v.len()
        invariant
            0 <= j <= v.len(),
            r@ == tri_par_date(v@.take(j as int)),
        decreases v.len() - j,
    {
        let mut k: usize = 0;
        proof {
            lemme_rang_borne(r@, v@[j as int], 0);
        }
        while k < r.len() && !inferieur(r[k].date.as_str(), v[j].date.as_str())
            invariant
                0 <= k <= r.len(),
                j < v.len(),
                rang_par_date(r@, v@[j as int], 0) == rang_par_date(r@, v@[j as int], k as int),
            decreases r.len() - k,
        {
            k = k + 1;
        }
        assert(v@.take(j + 1).drop_last() =~= v@.take(j as int));
        assert(v@.take(j + 1).last() == v@[j as int]);
        r.insert(k, v[j].copie());
        j = j + 1;
    }
    assert(v@.take(v.len() as int) =~= v@);
    r
}

/// Message d'erreur de l'enregistrement d'une réparation, ou `None`.
pub open spec fn erreur_reparation(f: FormulaireReparation) -> Option<Seq<char>> {
    if f.voiture_idx == 0 {
        Some("Choisissez une voiture."@)
    } else if est_blanc(f.description@) {
        Some("La description est obligatoire."@)
    } else if date_saisie(f.date@) is None {
        Some("Date invalide (JJ/MM/AAAA)."@)
    } else {
        None
    }
}

/// La réparation saisie.
pub open spec fn reparation_saisie(r: Reparation, app: App) -> bool {
    let f = app.form_reparation;
    let v = app.voitures@[f.voiture_idx - 1];
    &&& r.id == max_ident(app.reparations@) + 1
    &&& r.voiture_id == v.id
    &&& r.voiture_modele@ == v.modele@
    &&& r.voiture_plaque@ == v.plaque@
    &&& r.date@ == date_ecrite(date_saisie(f.date@)->0, format_iso())
    &&& r.description@ == rogne(f.description@)
    &&& r.prix@ == rogne(f.prix@)
    &&& r.observation@ == rogne(f.observation@)
}

/// Réparation gardée par le filtre : voiture choisie (si une l'est) et recherche.
pub open spec fn reparation_gardee(vid: Option<u64>, q: Seq<char>) -> spec_fn(Reparation) -> bool {
    |r: Reparation|
        (match vid {
            Some(id) => r.voiture_id == id,
            None => true,
        }) && (q.len() == 0 || correspond(r.voiture_modele@, q) || correspond(r.voiture_plaque@, q)
            || correspond(r.description@, q) || correspond(r.observation@, q))
}

/// Prix nettoyé avant lecture : sans « DA », sans espaces, virgule décimale
/// changée en point.
pub open spec fn prix_nettoye(s: Seq<char>) -> Seq<char> {
    let a = sans_motif(s, " DA"@);
    let b = sans_motif(a, " da"@);
    let c = remplace_car(b, '\u{00A0}', Seq::empty());
    let d = remplace_car(c, ' ', Seq::empty());
    remplace_car(d, ',', seq!['.'])
}

/// Montant lu dans le prix d'une réparation, s'il se lit.
pub open spec fn cout_reparation(r: Reparation) -> Option<i64> {
    montant_lu(rogne(prix_nettoye(r.prix@)))
}

/// Coût d'une réparation dont le prix se lit.
pub open spec fn cout_connu() -> spec_fn(Reparation) -> bool {
    |r: Reparation| cout_reparation(r) is Some
}

/// Lit le montant du prix d'une réparation.
pub fn lire_cout(r: &Reparation) -> (c: Option<i64>)
    ensures
        c == cout_reparation(*r),
{
    let a = retirer_motif(r.prix.as_str(), " DA");
    let b = retirer_motif(a.as_str(), " da");
    let c = remplacer_car(b.as_str(), '\u{00A0}', "");
    let d = remplacer_car(c.as_str(), ' ', "");
    let e = remplacer_car(d.as_str(), ',', ".");
    proof {
        reveal_strlit("");
        reveal_strlit(".");
        assert(""@ =~= Seq::<char>::empty());
        assert("."@ =~= seq!['.']);
    }
    let t = rogner(e.as_str());
    lire_montant(t.as_str())
}

/// Effet de l'enregistrement d'une réparation le jour `t`.
pub open spec fn reparation_ajoutee(avant: App, apres: App, t: int, sauver: bool) -> bool {
    &&& sauver == (erreur_reparation(avant.form_reparation) is None)
    &&& match erreur_reparation(avant.form_reparation) {
        Some(m) => {
            &&& apres.form_reparation.msg@ == m
            &&& apres.form_reparation == (FormulaireReparation {
                msg: apres.form_reparation.msg,
                ok: false,
                ..avant.form_reparation
            })
            &&& apres == (App { form_reparation: apres.form_reparation, ..avant })
        },
        None => {
            let g = apres.form_reparation;
            &&& exists|n: Reparation|
                reparation_saisie(n, avant) && apres.reparations@ == tri_par_date(
                    avant.reparations@.push(n),
                )
            &&& g.msg@.len() == 0 && g.ok
            &&& g.description@.len() == 0 && g.prix@.len() == 0 && g.observation@.len() == 0
            &&& g.date@ == date_ecrite(t, format_jma())
            &&& g == (FormulaireReparation {
                msg: g.msg,
                ok: true,
                description: g.description,
                prix: g.prix,
                observation: g.observation,
                date: g.date,
                ..avant.form_reparation
            })
            &&& apres == (App {
                reparations: apres.reparations,
                form_reparation: g,
                ..avant
            })
        },
    }
}

impl App {
    /// Refus opposé à la réparation saisie : le message d'erreur, ou `None`
    /// si elle peut être enregistrée.
    pub fn refus_reparation(&self) -> (r: Option<&'static str>)
        ensures
            match r {
                Some(m) => erreur_reparation(self.form_reparation) == Some(m@),
                None => erreur_reparation(self.form_reparation) is None,
            },
    {
        if self.form_reparation.voiture_idx == 0 {
            Some("Choisissez une voiture.")
        } else if est_blanc_texte(self.form_reparation.description.as_str()) {
            Some("La description est obligatoire.")
        } else if parse_date(self.form_reparation.date.as_str()).is_none() {
            Some("Date invalide (JJ/MM/AAAA).")
        } else {
            None
        }
    }

    /// Enregistre la réparation saisie le jour `t` ; les réparations sont
    /// ensuite triées par date décroissante. Rend vrai si elles ont changé.
    /// Une voiture choisie hors du parc n'est admise que si la saisie est
    /// refusée pour une autre raison.
    pub fn ajouter_reparation(&mut self, t: Date) -> (sauver: bool)
        requires
            jour_valide(t.jour as int),
            max_ident(old(self).reparations@) < u64::MAX,
            old(self).form_reparation.voiture_idx <= old(self).voitures@.len() || erreur_reparation(
                old(self).form_reparation,
            ) is Some,
        ensures
            reparation_ajoutee(*old(self), *final(self), t.jour as int, sauver),
    {
        if let Some(m) = self.refus_reparation() {
            self.form_reparation.msg = String::from_str(m);
            self.form_reparation.ok = false;
            return false;
        }
        let idx = self.form_reparation.voiture_idx;
        let date = parse_date(self.form_reparation.date.as_str()).unwrap();
        let v = &self.voitures[idx - 1];
        let n = Reparation {
            id: prochain_identifiant(&self.reparations),
            voiture_id: v.id,
            voiture_modele: v.modele.clone(),
            voiture_plaque: v.plaque.clone(),
            date: stocker_date(date),
            description: rogner(self.form_reparation.description.as_str()),
            prix: rogner(self.form_reparation.prix.as_str()),
            observation: rogner(self.form_reparation.observation.as_str()),
        };
        assert(reparation_saisie(n, *old(self)));
        let mut liste = Vec::new();
        std::mem::swap(&mut liste, &mut self.reparations);
        liste.push(n);
        self.reparations = trier_par_date(liste);
        self.form_reparation.description = String::new();
        self.form_reparation.prix = String::new();
        self.form_reparation.observation = String::new();
        self.form_reparation.date = texte_jma(t);
        self.form_reparation.msg = String::new();
        self.form_reparation.ok = true;
        true
    }

    /// Supprime les réparations d'identifiant `id`.
    pub fn supprimer_reparation(&mut self, id: u64)
        ensures
            final(self).reparations@ == sans_ident(old(self).reparations@, id),
            *final(self) == (App {
                reparations: final(self).reparations,
                form_reparation: FormulaireReparation {
                    suppr_confirm: None,
                    ..old(self).form_reparation
                },
                ..*old(self)
            }),
    {
        retirer_ident(&mut self.reparations, id);
        self.form_reparation.suppr_confirm = None;
    }

    /// Réparations montrées : celles de la voiture choisie dans le filtre
    /// (toutes si aucune) qui correspondent à la recherche rognée.
    pub fn reparations_filtrees(&self) -> (r: Vec<Reparation>)
        requires
            self.form_reparation.filtre_voiture <= self.voitures@.len(),
        ensures
            r@ == self.reparations@.filter(
                reparation_gardee(
                    if self.form_reparation.filtre_voiture == 0 {
                        None
                    } else {
                        Some(self.voitures@[self.form_reparation.filtre_voiture - 1].id)
                    },
                    minuscules(rogne(self.form_reparation.recherche@)),
                ),
            ),
    {
        let fv = self.form_reparation.filtre_voiture;
        let vid: Option<u64> = if fv == 0 {
            None
        } else {
            Some(self.voitures[fv - 1].id)
        };
        let q = en_minuscules(rogner(self.form_reparation.recherche.as_str()).as_str());
        let vide = q.as_str().unicode_len() == 0;
        let ghost p = reparation_gardee(vid, q@);
        let mut r: Vec<Reparation> = Vec::new();
        let mut i: usize = 0;
        proof {
            lemme_filtre_vide(self.reparations@, p);
        }
        while i < self.reparations.len()
            invariant
                0 <= i <= self.reparations.len(),
                p == reparation_gardee(vid, q@),
                vide == (q@.len() == 0),
                r@ == self.reparations@.take(i as int).filter(p),
            decreases self.reparations.len() - i,
        {
            proof {
                lemme_filtre_pas(self.reparations@, p, i as int);
            }
            let x = &self.reparations[i];
            let bonne_voiture = match vid {
                Some(id) => x.voiture_id == id,
                None => true,
            };
            if bonne_voiture && (vide || correspond_texte(x.voiture_modele.as_str(), q.as_str())
                || correspond_texte(x.voiture_plaque.as_str(), q.as_str()) || correspond_texte(
                x.description.as_str(),
                q.as_str(),
            ) || correspond_texte(x.observation.as_str(), q.as_str())) {
                r.push(x.copie());
            }
            i = i + 1;
        }
        assert(self.reparations@.take(self.reparations.len() as int) =~= self.reparations@);
        r
    }
}

/// Coût total des réparations dont le prix se lit ; `None` si le calcul sort
/// des entiers sur 128 bits.
pub fn cout_total(liste: &Vec<Reparation>) -> (r: Option<i128>)
    ensures
        valeur_opt(r) == somme_bornee(
            liste@.filter(cout_connu()).map_values(|x: Reparation| cout_reparation(x)->0 as int),
        ),
{
    let ghost p = cout_connu();
    let ghost f = |x: Reparation| cout_reparation(x)->0 as int;
    let mut v: Vec<i128> = Vec::new();
    let mut i: usize = 0;
    proof {
        lemme_filtre_vide(liste@, p);
        assert(valeurs(v@) =~= liste@.take(0).filter(p).map_values(f));
    }
    while i < liste.len()
        invariant
            0 <= i <= liste.len(),
            p == cout_connu(),
            f == (|x: Reparation| cout_reparation(x)->0 as int),
            valeurs(v@) == liste@.take(i as int).filter(p).map_values(f),
        decreases liste.len() - i,
    {
        proof {
            lemme_filtre_pas(liste@, p, i as int);
        }
        match lire_cout(&liste[i]) {
            Some(c) => {
                let ghost avant = v@;
                v.push(c as i128);
                proof {
                    assert(valeurs(v@) =~= valeurs(avant).push(c as int));
                    assert(liste@.take(i as int).filter(p).push(liste@[i as int]).map_values(f)
                        =~= liste@.take(i as int).filter(p).map_values(f).push(f(liste@[i as int])));
                }
            },
            None => {},
        }
        i = i + 1;
    }
    assert(liste@.take(liste.len() as int) =~= liste@);
    additionner(&v)
}

} // verus!
