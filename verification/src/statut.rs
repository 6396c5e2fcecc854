//! Historique des contrats d'une voiture et situation de la voiture sur une
//! période : en location, réservée, impayée, en maintenance, rendue ou libre.
use vstd::prelude::*;
use vstd::string::*;
use crate::theme::{Rgb, rouge_iam, indigo, ambre, vert, couleur_rouge_iam, couleur_indigo,
    couleur_ambre, couleur_vert};
use crate::date::{Date, date_saisie, parse_date, affichage_date, afficher_date};
use crate::modeles::{Contrat, statut_annule, chevauche_spec, reste_contrat};
use crate::montant::{ecriture_arrondie, texte_arrondi};
use crate::texte::{egal, contient, contient_spec};
use crate::agence::{App, StatutVoiture, est_actif, premiere_voiture_id};
use crate::outils::{lemme_filtre_pas, lemme_filtre_vide};

verus! {

/// Clé de tri d'un contrat : sa date de début saisie, ou `aujourdhui` si elle
/// ne se lit pas.
pub open spec fn cle_debut(c: Contrat, aujourdhui: int) -> int {
    match date_saisie(c.date_debut@) {
        Some(n) => n,
        None => aujourdhui,
    }
}

/// Place d'insertion de `c` dans `s` à partir de `k` : le premier contrat de
/// clé strictement plus petite.
pub open spec fn rang_insertion(s: Seq<Contrat>, c: Contrat, t: int, k: int) -> int
    decreases s.len() - k,
{
    if k >= s.len() || k < 0 {
        s.len() as int
    } else if cle_debut(s[k], t) < cle_debut(c, t) {
        k
    } else {
        rang_insertion(s, c, t, k + 1)
    }
}

/// Tri stable par date de début décroissante : chaque contrat est inséré,
/// dans l'ordre d'origine, après ceux de clé supérieure ou égale.
pub open spec fn tri_par_debut(s: Seq<Contrat>, t: int) -> Seq<Contrat>
    decreases s.len(),
{
    if s.len() == 0 {
        s
    } else {
        let avant = tri_par_debut(s.drop_last(), t);
        avant.insert(rang_insertion(avant, s.last(), t, 0), s.last())
    }
}

/// Contrats non annulés de la voiture `vid`.
pub open spec fn contrats_de_voiture(s: Seq<Contrat>, vid: u64) -> Seq<Contrat> {
    s.filter(|c: Contrat| c.voiture_id == vid && c.statut@ != statut_annule())
}

/// Historique d'une voiture : ses contrats non annulés, du plus récent au plus ancien.
pub open spec fn historique(s: Seq<Contrat>, vid: u64, t: int) -> Seq<Contrat> {
    tri_par_debut(contrats_de_voiture(s, vid), t)
}

proof fn lemme_rang_borne(s: Seq<Contrat>, c: Contrat, t: int, k: int)
    requires
        0 <= k <= s.len(),
    ensures
        k <= rang_insertion(s, c, t, k) <= s.len(),
    decreases s.len() - k,
{
    if k < s.len() && !(cle_debut(s[k], t) < cle_debut(c, t)) {
        lemme_rang_borne(s, c, t, k + 1);
    }
}

/// Clé de tri d'un contrat, en exécution.
fn cle(c: &Contrat, aujourdhui: Date) -> (r: i32)
    ensures
        r == cle_debut(*c, aujourdhui.jour as int),
{
    match parse_date(c.date_debut.as_str()) {
        Some(d) => d.jour,
        None => aujourdhui.jour,
    }
}

/// Le contrat d'indice `k` est le premier qui occupe la voiture sur la période.
pub open spec fn est_courant(l: Seq<Contrat>, du: int, au: int, k: int) -> bool {
    0 <= k < l.len() && chevauche_spec(l[k], du, au) && forall|j: int|
        0 <= j < k ==> !chevauche_spec(#[trigger] l[j], du, au)
}

/// Le contrat commence (date saisie) après `au`.
pub open spec fn est_futur(c: Contrat, au: int) -> bool {
    match date_saisie(c.date_debut@) {
        Some(d) => d > au,
        None => false,
    }
}

/// Date de début saisie (valeur arbitraire si elle ne se lit pas).
pub open spec fn debut_saisi(c: Contrat) -> int {
    date_saisie(c.date_debut@)->0
}

/// Date de fin saisie (valeur arbitraire si elle ne se lit pas).
pub open spec fn fin_saisie(c: Contrat) -> int {
    date_saisie(c.date_fin@)->0
}

/// Le contrat d'indice `k` est la réservation future la plus proche (la
/// première en cas d'égalité).
pub open spec fn est_futur_proche(l: Seq<Contrat>, au: int, k: int) -> bool {
    &&& 0 <= k < l.len()
    &&& est_futur(l[k], au)
    &&& forall|j: int|
        0 <= j < l.len() && est_futur(#[trigger] l[j], au) ==> debut_saisi(l[k]) <= debut_saisi(l[j])
    &&& forall|j: int|
        0 <= j < k && est_futur(#[trigger] l[j], au) ==> debut_saisi(l[j]) > debut_saisi(l[k])
}

/// Le contrat se termine (date saisie) avant `du`.
pub open spec fn est_passe(c: Contrat, du: int) -> bool {
    match date_saisie(c.date_fin@) {
        Some(d) => d < du,
        None => false,
    }
}

/// Le contrat d'indice `k` est le dernier terminé avant la période (le dernier
/// de la liste en cas d'égalité).
pub open spec fn est_dernier_passe(l: Seq<Contrat>, du: int, k: int) -> bool {
    &&& 0 <= k < l.len()
    &&& est_passe(l[k], du)
    &&& forall|j: int|
        0 <= j < l.len() && est_passe(#[trigger] l[j], du) ==> fin_saisie(l[j]) <= fin_saisie(l[k])
    &&& forall|j: int|
        k < j < l.len() && est_passe(#[trigger] l[j], du) ==> fin_saisie(l[j]) < fin_saisie(l[k])
}

/// Contrat actif, commencé au plus tard le jour `t`, avec un reste à payer.
pub open spec fn est_impaye(c: Contrat, t: int) -> bool {
    &&& est_actif(c)
    &&& reste_contrat(c) > 0
    &&& match date_saisie(c.date_debut@) {
        Some(d) => d <= t,
        None => false,
    }
}

/// Clé du contrat impayé : sa date de fin saisie, ou `t` si elle ne se lit pas.
pub open spec fn cle_fin(c: Contrat, t: int) -> int {
    match date_saisie(c.date_fin@) {
        Some(n) => n,
        None => t,
    }
}

/// Le contrat d'indice `k` est l'impayé qui finit le plus tard (le dernier de
/// la liste en cas d'égalité).
pub open spec fn est_impaye_recent(l: Seq<Contrat>, t: int, k: int) -> bool {
    &&& 0 <= k < l.len()
    &&& est_impaye(l[k], t)
    &&& forall|j: int|
        0 <= j < l.len() && est_impaye(#[trigger] l[j], t) ==> cle_fin(l[j], t) <= cle_fin(l[k], t)
    &&& forall|j: int|
        k < j < l.len() && est_impaye(#[trigger] l[j], t) ==> cle_fin(l[j], t) < cle_fin(l[k], t)
}

impl App {
    /// Historique d'une voiture : contrats non annulés triés du plus récent au
    /// plus ancien (date de début ; `aujourdhui` pour une date illisible).
    pub fn contrats_voiture(&self, vid: u64, aujourdhui: Date) -> (r: Vec<Contrat>)
        ensures
            r@ == historique(self.contrats@, vid, aujourdhui.jour as int),
    {
        let ghost p = |c: Contrat| c.voiture_id == vid && c.statut@ != statut_annule();
        let mut f: Vec<Contrat> = Vec::new();
        let mut i: usize = 0;
        proof {
            lemme_filtre_vide(self.contrats@, p);
        }
        while i < self.contrats.len()
            invariant
                0 <= i <= self.contrats.len(),
                f@ == self.contrats@.take(i as int).filter(p),
                p == (|c: Contrat| c.voiture_id == vid && c.statut@ != statut_annule()),
            decreases self.contrats.len() - i,
        {
            proof {
                lemme_filtre_pas(self.contrats@, p, i as int);
            }
            let c = &self.contrats[i];
            if c.voiture_id == vid && !egal(c.statut.as_str(), "Annulé") {
                f.push(c.copie());
            }
            i = i + 1;
        }
        assert(self.contrats@.take(self.contrats.len() as int) =~= self.contrats@);
        let ghost t = aujourdhui.jour as int;
        let mut r: Vec<Contrat> = Vec::new();
        let mut j: usize = 0;
        assert(f@.take(0) =~= Seq::<Contrat>::empty());
        while j < f.len()
            invariant
                0 <= j <= f.len(),
                r@ == tri_par_debut(f@.take(j as int), t),
                r@.len() == j,
                t == aujourdhui.jour,
            decreases f.len() - j,
        {
            let kc = cle(&f[j], aujourdhui);
            let mut k: usize = 0;
            proof {
                lemme_rang_borne(r@, f@[j as int], t, 0);
            }
            while k < r.len() && !(cle(&r[k], aujourdhui) < kc)
                invariant
                    0 <= k <= r.len(),
                    kc == cle_debut(f@[j as int], t),
                    t == aujourdhui.jour,
                    rang_insertion(r@, f@[j as int], t, 0) == rang_insertion(
                        r@,
                        f@[j as int],
                        t,
                        k as int,
                    ),
                decreases r.len() - k,
            {
                k = k + 1;
            }
            assert(f@.take(j + 1).drop_last() =~= f@.take(j as int));
            assert(f@.take(j + 1).last() == f@[j as int]);
            r.insert(k, f[j].copie());
            j = j + 1;
        }
        assert(f@.take(f.len() as int) =~= f@);
        r
    }

}


fn indice_courant(l: &Vec<Contrat>, du: Date, au: Date) -> (r: Option<usize>)
    ensures
        match r {
            Some(k) => est_courant(l@, du.jour as int, au.jour as int, k as int),
            None => forall|k: int| 0 <= k < l@.len() ==> !chevauche_spec(#[trigger] l@[k], du.jour as int, au.jour as int),
        },
{
    let mut i: usize = 0;
    while i < l.len()
        invariant
            0 <= i <= l.len(),
            forall|k: int| 0 <= k < i ==> !chevauche_spec(#[trigger] l@[k], du.jour as int, au.jour as int),
        decreases l.len() - i,
    {
        if l[i].chevauche(du, au) {
            return Some(i);
        }
        i = i + 1;
    }
    None
}

fn indice_futur(l: &Vec<Contrat>, au: Date) -> (r: Option<usize>)
    ensures
        match r {
            Some(k) => est_futur_proche(l@, au.jour as int, k as int),
            None => forall|k: int| 0 <= k < l@.len() ==> !est_futur(#[trigger] l@[k], au.jour as int),
        },
{
    let ghost a = au.jour as int;
    let mut b: Option<usize> = None;
    let mut best: i32 = 0;
    let mut i: usize = 0;
    while i < l.len()
        invariant
            0 <= i <= l.len(),
            a == au.jour,
            match b {
                None => forall|j: int| 0 <= j < i ==> !est_futur(#[trigger] l@[j], a),
                Some(k) => {
                    &&& k < i
                    &&& est_futur(l@[k as int], a)
                    &&& best == debut_saisi(l@[k as int])
                    &&& forall|j: int|
                        0 <= j < i && est_futur(#[trigger] l@[j], a) ==> best <= debut_saisi(l@[j])
                    &&& forall|j: int|
                        0 <= j < k && est_futur(#[trigger] l@[j], a) ==> debut_saisi(l@[j]) > best
                },
            },
        decreases l.len() - i,
    {
        match parse_date(l[i].date_debut.as_str()) {
            Some(d) => {
                if d.jour > au.jour {
                    let meilleur = match b {
                        None => true,
                        Some(_) => d.jour < best,
                    };
                    if meilleur {
                        b = Some(i);
                        best = d.jour;
                    }
                }
            },
            None => {},
        }
        i = i + 1;
    }
    b
}

fn indice_passe(l: &Vec<Contrat>, du: Date) -> (r: Option<usize>)
    ensures
        match r {
            Some(k) => est_dernier_passe(l@, du.jour as int, k as int),
            None => forall|k: int| 0 <= k < l@.len() ==> !est_passe(#[trigger] l@[k], du.jour as int),
        },
{
    let ghost a = du.jour as int;
    let mut b: Option<usize> = None;
    let mut best: i32 = 0;
    let mut i: usize = 0;
    while i < l.len()
        invariant
            0 <= i <= l.len(),
            a == du.jour,
            match b {
                None => forall|j: int| 0 <= j < i ==> !est_passe(#[trigger] l@[j], a),
                Some(k) => {
                    &&& k < i
                    &&& est_passe(l@[k as int], a)
                    &&& best == fin_saisie(l@[k as int])
                    &&& forall|j: int|
                        0 <= j < i && est_passe(#[trigger] l@[j], a) ==> fin_saisie(l@[j]) <= best
                    &&& forall|j: int|
                        k < j < i && est_passe(#[trigger] l@[j], a) ==> fin_saisie(l@[j]) < best
                },
            },
        decreases l.len() - i,
    {
        match parse_date(l[i].date_fin.as_str()) {
            Some(d) => {
                if d.jour < du.jour {
                    let meilleur = match b {
                        None => true,
                        Some(_) => d.jour >= best,
                    };
                    if meilleur {
                        b = Some(i);
                        best = d.jour;
                    }
                }
            },
            None => {},
        }
        i = i + 1;
    }
    b
}

fn indice_impaye(l: &Vec<Contrat>, t: Date) -> (r: Option<usize>)
    ensures
        match r {
            Some(k) => est_impaye_recent(l@, t.jour as int, k as int),
            None => forall|k: int| 0 <= k < l@.len() ==> !est_impaye(#[trigger] l@[k], t.jour as int),
        },
{
    let ghost a = t.jour as int;
    let mut b: Option<usize> = None;
    let mut best: i32 = 0;
    let mut i: usize = 0;
    while i < l.len()
        invariant
            0 <= i <= l.len(),
            a == t.jour,
            match b {
                None => forall|j: int| 0 <= j < i ==> !est_impaye(#[trigger] l@[j], a),
                Some(k) => {
                    &&& k < i
                    &&& est_impaye(l@[k as int], a)
                    &&& best == cle_fin(l@[k as int], a)
                    &&& forall|j: int|
                        0 <= j < i && est_impaye(#[trigger] l@[j], a) ==> cle_fin(l@[j], a) <= best
                    &&& forall|j: int|
                        k < j < i && est_impaye(#[trigger] l@[j], a) ==> cle_fin(l@[j], a) < best
                },
            },
        decreases l.len() - i,
    {
        let c = &l[i];
        let candidat = egal(c.statut.as_str(), "Actif") && c.reste_a_payer() > 0 && match parse_date(
            c.date_debut.as_str(),
        ) {
            Some(d) => d.jour <= t.jour,
            None => false,
        };
        if candidat {
            let cf = match parse_date(c.date_fin.as_str()) {
                Some(d) => d.jour,
                None => t.jour,
            };
            let meilleur = match b {
                None => true,
                Some(_) => cf >= best,
            };
            if meilleur {
                b = Some(i);
                best = cf;
            }
        }
        i = i + 1;
    }
    b
}

proof fn lemme_courant_unique(l: Seq<Contrat>, du: int, au: int, k1: int, k2: int)
    requires
        est_courant(l, du, au, k1),
        est_courant(l, du, au, k2),
    ensures
        k1 == k2,
{
    if k1 < k2 {
        assert(!chevauche_spec(l[k1], du, au));
    } else if k2 < k1 {
        assert(!chevauche_spec(l[k2], du, au));
    }
}

proof fn lemme_futur_unique(l: Seq<Contrat>, au: int, k1: int, k2: int)
    requires
        est_futur_proche(l, au, k1),
        est_futur_proche(l, au, k2),
    ensures
        k1 == k2,
{
    assert(est_futur(l[k1], au) && est_futur(l[k2], au));
}

proof fn lemme_passe_unique(l: Seq<Contrat>, du: int, k1: int, k2: int)
    requires
        est_dernier_passe(l, du, k1),
        est_dernier_passe(l, du, k2),
    ensures
        k1 == k2,
{
    assert(est_passe(l[k1], du) && est_passe(l[k2], du));
}

proof fn lemme_impaye_unique(l: Seq<Contrat>, t: int, k1: int, k2: int)
    requires
        est_impaye_recent(l, t, k1),
        est_impaye_recent(l, t, k2),
    ensures
        k1 == k2,
{
    assert(est_impaye(l[k1], t) && est_impaye(l[k2], t));
}

/// Contrat en cours sur la période, dans l'historique.
pub open spec fn courant(l: Seq<Contrat>, du: int, au: int) -> Option<int> {
    if exists|k: int| est_courant(l, du, au, k) {
        Some(choose|k: int| est_courant(l, du, au, k))
    } else {
        None
    }
}

/// Réservation future la plus proche, dans l'historique.
pub open spec fn futur(l: Seq<Contrat>, au: int) -> Option<int> {
    if exists|k: int| est_futur_proche(l, au, k) {
        Some(choose|k: int| est_futur_proche(l, au, k))
    } else {
        None
    }
}

/// Dernier contrat terminé avant la période, dans l'historique.
pub open spec fn passe(l: Seq<Contrat>, du: int) -> Option<int> {
    if exists|k: int| est_dernier_passe(l, du, k) {
        Some(choose|k: int| est_dernier_passe(l, du, k))
    } else {
        None
    }
}

/// Impayé le plus récent, dans l'historique.
pub open spec fn impaye(l: Seq<Contrat>, t: int) -> Option<int> {
    if exists|k: int| est_impaye_recent(l, t, k) {
        Some(choose|k: int| est_impaye_recent(l, t, k))
    } else {
        None
    }
}

/// Résumé d'un contrat sur une ligne.
pub open spec fn resume(c: Contrat, prefixe: Seq<char>) -> Seq<char> {
    prefixe + " "@ + c.numero@ + " | "@ + affichage_date(c.date_debut@) + " au "@ + affichage_date(
        c.date_fin@,
    ) + " | "@ + c.client_nom@ + " | reste "@ + ecriture_arrondie(reste_contrat(c)) + " DA"@
}

/// Paires (texte, couleur) vues comme des suites de caractères.
pub open spec fn vue_paires(v: Seq<(String, Rgb)>) -> Seq<(Seq<char>, Rgb)> {
    v.map_values(|p: (String, Rgb)| (p.0@, p.1))
}

/// Couleur et libellé de la situation, par ordre de priorité.
pub open spec fn couleur_libelle(
    cur: bool,
    fut: bool,
    imp: bool,
    maint: bool,
    der: bool,
    attenue: Rgb,
) -> (Rgb, Seq<char>) {
    if cur {
        (couleur_rouge_iam(), "En période"@)
    } else if fut {
        (couleur_indigo(), "Réservé"@)
    } else if imp {
        (couleur_ambre(), "Impayé"@)
    } else if maint {
        (couleur_ambre(), "En maintenance"@)
    } else if der {
        (attenue, "Terminé"@)
    } else {
        (couleur_vert(), "Disponible"@)
    }
}

/// Une pastille ou une ligne, si elle est présente.
pub open spec fn si(present: bool, texte: Seq<char>, c: Rgb) -> Seq<(Seq<char>, Rgb)> {
    if present {
        seq![(texte, c)]
    } else {
        Seq::empty()
    }
}

/// Pastilles de la situation d'une voiture.
pub open spec fn badges_spec(
    l: Seq<Contrat>,
    cur: Option<int>,
    fut: Option<int>,
    imp: Option<int>,
    maint: bool,
    der: Option<int>,
    attenue: Rgb,
) -> Seq<(Seq<char>, Rgb)> {
    si(cur is Some, "Actuel: "@ + l[cur->0].numero@, couleur_rouge_iam()) + si(
        fut is Some,
        "Futur: "@ + l[fut->0].numero@,
        couleur_indigo(),
    ) + si(
        imp is Some,
        "Reste: "@ + ecriture_arrondie(reste_contrat(l[imp->0])) + " DA"@,
        couleur_ambre(),
    ) + si(maint, "Maintenance"@, couleur_ambre()) + si(
        der is Some,
        "Terminé: "@ + l[der->0].numero@,
        attenue,
    )
}

/// Lignes de détail de la situation d'une voiture (sans la ligne « disponible »).
pub open spec fn lignes_contrats(
    l: Seq<Contrat>,
    cur: Option<int>,
    fut: Option<int>,
    imp: Option<int>,
    der: Option<int>,
    attenue: Rgb,
) -> Seq<(Seq<char>, Rgb)> {
    let l2 = si(cur is Some, resume(l[cur->0], "Période"@), couleur_rouge_iam()) + si(
        fut is Some,
        resume(l[fut->0], "Futur"@),
        couleur_indigo(),
    );
    let l3 = l2 + si(
        imp is Some && !(exists|i: int|
            0 <= i < l2.len() && contient_spec(#[trigger] l2[i].0, l[imp->0].numero@)),
        resume(l[imp->0], "Solde"@),
        couleur_ambre(),
    );
    l3 + si(der is Some && cur is None && fut is None, resume(l[der->0], "Terminé"@), attenue)
}

/// Première voiture d'identifiant donné, par son rang.
pub open spec fn voiture_de(vs: Seq<crate::modeles::Voiture>, vid: u64) -> Option<int> {
    if exists|k: int| premiere_voiture_id(vs, vid, k) {
        Some(choose|k: int| premiere_voiture_id(vs, vid, k))
    } else {
        None
    }
}

/// Situation attendue d'une voiture : couleur, libellé, pastilles et lignes.
pub open spec fn statut_attendu(
    contrats: Seq<Contrat>,
    voitures: Seq<crate::modeles::Voiture>,
    vid: u64,
    du: int,
    au: int,
    t: int,
    attenue: Rgb,
) -> (Rgb, Seq<char>, Seq<(Seq<char>, Rgb)>, Seq<(Seq<char>, Rgb)>) {
    match voiture_de(voitures, vid) {
        None => (attenue, "Inconnue"@, Seq::empty(), Seq::empty()),
        Some(kv) => {
            let v = voitures[kv];
            let l = historique(contrats, vid, t);
            let cur = courant(l, du, au);
            let fut = futur(l, au);
            let der = passe(l, du);
            let imp = impaye(l, t);
            let maint = v.etat@ == "En maintenance"@;
            let (c, lib) = couleur_libelle(
                cur is Some,
                fut is Some,
                imp is Some,
                maint,
                der is Some,
                attenue,
            );
            let lc = lignes_contrats(l, cur, fut, imp, der, attenue);
            let lignes = if lc.len() == 0 {
                seq![(v.modele@ + " est disponible"@, couleur_vert())]
            } else {
                lc
            };
            (c, lib, badges_spec(l, cur, fut, imp, maint, der, attenue), lignes)
        },
    }
}

/// Vue d'une situation de voiture.
pub open spec fn vue_statut(s: StatutVoiture) -> (Rgb, Seq<char>, Seq<(Seq<char>, Rgb)>, Seq<(Seq<char>, Rgb)>) {
    (s.couleur, s.libelle@, vue_paires(s.badges@), vue_paires(s.lignes@))
}

fn ajouter(v: &mut Vec<(String, Rgb)>, texte: String, c: Rgb)
    ensures
        vue_paires(final(v)@) == vue_paires(old(v)@) + seq![(texte@, c)],
{
    let ghost avant = v@;
    v.push((texte, c));
    assert(vue_paires(v@) =~= vue_paires(avant) + seq![(texte@, c)]);
}

fn texte_de(morceaux: &str, suite: &str) -> (r: String)
    ensures
        r@ == morceaux@ + suite@,
{
    let mut r = String::from_str(morceaux);
    r.append(suite);
    r
}

impl App {
    /// Résumé d'un contrat sur une ligne, précédé de `prefix`.
    pub fn contrat_resume(c: &Contrat, prefix: &str) -> (r: String)
        ensures
            r@ == resume(*c, prefix@),
    {
        let mut r = String::from_str(prefix);
        r.append(" ");
        r.append(c.numero.as_str());
        r.append(" | ");
        let d = afficher_date(c.date_debut.as_str());
        r.append(d.as_str());
        r.append(" au ");
        let f = afficher_date(c.date_fin.as_str());
        r.append(f.as_str());
        r.append(" | ");
        r.append(c.client_nom.as_str());
        r.append(" | reste ");
        let m = texte_arrondi(c.reste_a_payer());
        r.append(m.as_str());
        r.append(" DA");
        r
    }

    /// Situation de la voiture `vid` sur la période de `du` à `au`, le jour
    /// `aujourdhui` servant aux impayés et aux dates illisibles.
    pub fn statut_voiture(&self, vid: u64, du: Date, au: Date, aujourdhui: Date) -> (r:
        StatutVoiture)
        ensures
            vue_statut(r) == statut_attendu(
                self.contrats@,
                self.voitures@,
                vid,
                du.jour as int,
                au.jour as int,
                aujourdhui.jour as int,
                self.theme.attenue,
            ),
    {
        let attenue = self.theme.muted();
        let voiture = match self.voiture_par_id(vid) {
            Some(v) => v,
            None => {
                proof {
                    assert(!exists|k: int| premiere_voiture_id(self.voitures@, vid, k));
                }
                let r = StatutVoiture {
                    couleur: attenue,
                    libelle: String::from_str("Inconnue"),
                    badges: Vec::new(),
                    lignes: Vec::new(),
                };
                assert(vue_paires(r.badges@) =~= Seq::empty());
                assert(vue_paires(r.lignes@) =~= Seq::empty());
                return r;
            },
        };
        let ghost kv = choose|k: int| premiere_voiture_id(self.voitures@, vid, k) && *voiture == self.voitures@[k];
        proof {
            let k2 = choose|k: int| premiere_voiture_id(self.voitures@, vid, k);
            if k2 < kv {
                assert(self.voitures@[k2].id != vid);
            } else if kv < k2 {
                assert(self.voitures@[kv].id != vid);
            }
        }
        let l = self.contrats_voiture(vid, aujourdhui);
        let ghost t = aujourdhui.jour as int;
        let cur = indice_courant(&l, du, au);
        let fut = indice_futur(&l, au);
        let der = indice_passe(&l, du);
        let imp = indice_impaye(&l, aujourdhui);
        let ghost scur = courant(l@, du.jour as int, au.jour as int);
        let ghost sfut = futur(l@, au.jour as int);
        let ghost sder = passe(l@, du.jour as int);
        let ghost simp = impaye(l@, t);
        proof {
            match cur {
                Some(k) => lemme_courant_unique(l@, du.jour as int, au.jour as int, k as int, scur->0),
                None => {},
            }
            match fut {
                Some(k) => lemme_futur_unique(l@, au.jour as int, k as int, sfut->0),
                None => {},
            }
            match der {
                Some(k) => lemme_passe_unique(l@, du.jour as int, k as int, sder->0),
                None => {},
            }
            match imp {
                Some(k) => lemme_impaye_unique(l@, t, k as int, simp->0),
                None => {},
            }
        }
        assert(opt_indice(cur) == scur);
        assert(opt_indice(fut) == sfut);
        assert(opt_indice(der) == sder);
        assert(opt_indice(imp) == simp);
        let maint = egal(voiture.etat.as_str(), "En maintenance");
        let (couleur, libelle) = if cur.is_some() {
            (rouge_iam(), String::from_str("En période"))
        } else if fut.is_some() {
            (indigo(), String::from_str("Réservé"))
        } else if imp.is_some() {
            (ambre(), String::from_str("Impayé"))
        } else if maint {
            (ambre(), String::from_str("En maintenance"))
        } else if der.is_some() {
            (attenue, String::from_str("Terminé"))
        } else {
            (vert(), String::from_str("Disponible"))
        };
        let badges = construire_badges(&l, cur, fut, imp, maint, der, attenue);
        let lignes = construire_lignes(&l, cur, fut, imp, der, attenue, voiture);
        StatutVoiture { couleur, libelle, badges, lignes }
    }

}

/// Indice optionnel vu comme entier.
pub open spec fn opt_indice(o: Option<usize>) -> Option<int> {
    match o {
        Some(k) => Some(k as int),
        None => None,
    }
}

fn construire_badges(
    l: &Vec<Contrat>,
    cur: Option<usize>,
    fut: Option<usize>,
    imp: Option<usize>,
    maint: bool,
    der: Option<usize>,
    attenue: Rgb,
) -> (r: Vec<(String, Rgb)>)
    requires
        cur matches Some(k) ==> k < l.len(),
        fut matches Some(k) ==> k < l.len(),
        imp matches Some(k) ==> k < l.len(),
        der matches Some(k) ==> k < l.len(),
    ensures
        vue_paires(r@) == badges_spec(
            l@,
            opt_indice(cur),
            opt_indice(fut),
            opt_indice(imp),
            maint,
            opt_indice(der),
            attenue,
        ),
{
    let mut b: Vec<(String, Rgb)> = Vec::new();
    assert(vue_paires(b@) =~= Seq::empty());
    let ghost e: Seq<(Seq<char>, Rgb)> = Seq::empty();
    if let Some(k) = cur {
        ajouter(&mut b, texte_de("Actuel: ", l[k].numero.as_str()), rouge_iam());
    }
    assert(vue_paires(b@) =~= e + si(
        cur is Some,
        "Actuel: "@ + l@[opt_indice(cur)->0].numero@,
        couleur_rouge_iam(),
    ));
    let ghost b1 = vue_paires(b@);
    if let Some(k) = fut {
        ajouter(&mut b, texte_de("Futur: ", l[k].numero.as_str()), indigo());
    }
    assert(vue_paires(b@) =~= b1 + si(
        fut is Some,
        "Futur: "@ + l@[opt_indice(fut)->0].numero@,
        couleur_indigo(),
    ));
    let ghost b2 = vue_paires(b@);
    if let Some(k) = imp {
        let m = texte_arrondi(l[k].reste_a_payer());
        let mut t = texte_de("Reste: ", m.as_str());
        t.append(" DA");
        ajouter(&mut b, t, ambre());
    }
    assert(vue_paires(b@) =~= b2 + si(
        imp is Some,
        "Reste: "@ + ecriture_arrondie(reste_contrat(l@[opt_indice(imp)->0])) + " DA"@,
        couleur_ambre(),
    ));
    let ghost b3 = vue_paires(b@);
    if maint {
        ajouter(&mut b, String::from_str("Maintenance"), ambre());
    }
    assert(vue_paires(b@) =~= b3 + si(maint, "Maintenance"@, couleur_ambre()));
    let ghost b4 = vue_paires(b@);
    if let Some(k) = der {
        ajouter(&mut b, texte_de("Terminé: ", l[k].numero.as_str()), attenue);
    }
    assert(vue_paires(b@) =~= b4 + si(
        der is Some,
        "Terminé: "@ + l@[opt_indice(der)->0].numero@,
        attenue,
    ));
    b
}

fn construire_lignes(
    l: &Vec<Contrat>,
    cur: Option<usize>,
    fut: Option<usize>,
    imp: Option<usize>,
    der: Option<usize>,
    attenue: Rgb,
    voiture: &crate::modeles::Voiture,
) -> (r: Vec<(String, Rgb)>)
    requires
        cur matches Some(k) ==> k < l.len(),
        fut matches Some(k) ==> k < l.len(),
        imp matches Some(k) ==> k < l.len(),
        der matches Some(k) ==> k < l.len(),
    ensures
        ({
            let lc = lignes_contrats(
                l@,
                opt_indice(cur),
                opt_indice(fut),
                opt_indice(imp),
                opt_indice(der),
                attenue,
            );
            vue_paires(r@) == if lc.len() == 0 {
                seq![(voiture.modele@ + " est disponible"@, couleur_vert())]
            } else {
                lc
            }
        }),
{
    let mut v: Vec<(String, Rgb)> = Vec::new();
    assert(vue_paires(v@) =~= Seq::empty());
    let ghost e: Seq<(Seq<char>, Rgb)> = Seq::empty();
    if let Some(k) = cur {
        ajouter(&mut v, App::contrat_resume(&l[k], "Période"), rouge_iam());
    }
    assert(vue_paires(v@) =~= e + si(
        cur is Some,
        resume(l@[opt_indice(cur)->0], "Période"@),
        couleur_rouge_iam(),
    ));
    let ghost v1 = vue_paires(v@);
    if let Some(k) = fut {
        ajouter(&mut v, App::contrat_resume(&l[k], "Futur"), indigo());
    }
    let ghost l2 = vue_paires(v@);
    assert(l2 =~= si(
        cur is Some,
        resume(l@[opt_indice(cur)->0], "Période"@),
        couleur_rouge_iam(),
    ) + si(fut is Some, resume(l@[opt_indice(fut)->0], "Futur"@), couleur_indigo()));
    if let Some(k) = imp {
        let mut deja = false;
        let mut i: usize = 0;
        while i < v.len()
            invariant
                0 <= i <= v.len(),
                k < l.len(),
                vue_paires(v@) == l2,
                deja == exists|j: int|
                    0 <= j < i && contient_spec(#[trigger] l2[j].0, l@[k as int].numero@),
            decreases v.len() - i,
        {
            assert(l2[i as int].0 == v@[i as int].0@);
            if contient(v[i].0.as_str(), l[k].numero.as_str()) {
                deja = true;
            }
            i = i + 1;
        }
        if !deja {
            ajouter(&mut v, App::contrat_resume(&l[k], "Solde"), ambre());
        }
    }
    let ghost l3 = vue_paires(v@);
    assert(l3 =~= l2 + si(
        imp is Some && !(exists|i: int|
            0 <= i < l2.len() && contient_spec(#[trigger] l2[i].0, l@[opt_indice(imp)->0].numero@)),
        resume(l@[opt_indice(imp)->0], "Solde"@),
        couleur_ambre(),
    ));
    if let Some(k) = der {
        if cur.is_none() && fut.is_none() {
            ajouter(&mut v, App::contrat_resume(&l[k], "Terminé"), attenue);
        }
    }
    assert(vue_paires(v@) =~= l3 + si(
        der is Some && cur is None && fut is None,
        resume(l@[opt_indice(der)->0], "Terminé"@),
        attenue,
    ));
    if v.len() == 0 {
        ajouter(&mut v, texte_de(voiture.modele.as_str(), " est disponible"), vert());
    }
    v
}

} // verus!
