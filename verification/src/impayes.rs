//! Clients impayés : contrats commencés avec un reste à payer, recherche,
//! total dû, jours de retard et pénalité de retard.
use vstd::prelude::*;
use vstd::string::*;
use crate::date::{Date, date_analysee, format_iso, date_iso, jour_valide};
use crate::modeles::{Contrat, statut_actif, statut_termine, reste_contrat, ecart_max};
use crate::texte::{egal, cle_texte, cle_de, correspond, correspond_texte};
use crate::agence::App;
use crate::outils::{lemme_filtre_pas, lemme_filtre_vide, somme_bornee, valeurs, additionner};

verus! {

/// Contrat actif ou terminé, avec un reste à payer, dont la date ISO de début
/// se lit et ne suit pas le jour `t`.
pub open spec fn impaye_le(t: int) -> spec_fn(Contrat) -> bool {
    |c: Contrat|
        (c.statut@ == statut_actif() || c.statut@ == statut_termine()) && reste_contrat(c) > 0
            && match date_analysee(c.date_debut@, format_iso()) {
            Some(d) => d <= t,
            None => false,
        }
}

/// Le contrat répond à la recherche des impayés `q` (rognée, en minuscules) :
/// client, téléphone, numéro ou véhicule ; tout contrat répond à une
/// recherche vide.
pub open spec fn repond_impaye(q: Seq<char>) -> spec_fn(Contrat) -> bool {
    |c: Contrat|
        q.len() == 0 || correspond(c.client_nom@, q) || correspond(c.client_tel@, q) || correspond(
            c.numero@,
            q,
        ) || correspond(c.voiture_modele@, q)
}

/// Impayés affichés le jour `t`, dans l'ordre des contrats.
pub open spec fn impayes_affiches(app: App, t: int) -> Seq<Contrat> {
    app.contrats@.filter(impaye_le(t)).filter(repond_impaye(cle_texte(app.impaye_recherche@)))
}

/// Restes à payer d'une suite de contrats.
pub open spec fn restes(s: Seq<Contrat>) -> Seq<int> {
    s.map_values(|c: Contrat| reste_contrat(c))
}

/// Jours de retard le jour `t` : pour un contrat actif dont la date ISO de fin
/// se lit et est passée, le nombre de jours depuis ; zéro sinon.
pub open spec fn jours_retard(c: Contrat, t: int) -> int {
    match date_analysee(c.date_fin@, format_iso()) {
        Some(d) => if d < t && c.statut@ == statut_actif() {
            t - d
        } else {
            0
        },
        None => 0,
    }
}

/// Pénalité de retard, en centimes : un tarif journalier par jour de retard.
pub open spec fn penalite(c: Contrat, t: int) -> int {
    jours_retard(c, t) * c.tarif_jour
}

/// Message d'une liste d'impayés vide, selon qu'une recherche est saisie.
pub open spec fn message_sans_impaye(q: Seq<char>) -> Seq<char> {
    if q.len() == 0 {
        "  Aucun client impayé. Tout est règlé !"@
    } else {
        "Aucun résultat pour cette recherche."@
    }
}

/// Message d'une liste d'impayés vide pour la recherche `q`.
pub fn message_vide(q: &str) -> (r: &'static str)
    ensures
        r@ == message_sans_impaye(q@),
{
    if q.unicode_len() == 0 {
        "  Aucun client impayé. Tout est règlé !"
    } else {
        "Aucun résultat pour cette recherche."
    }
}

/// Jours de retard d'un contrat le jour `t`.
pub fn retard_jours(c: &Contrat, t: Date) -> (r: i64)
    requires
        jour_valide(t.jour as int),
    ensures
        r == jours_retard(*c, t.jour as int),
        0 <= r <= ecart_max(),
{
    match date_iso(c.date_fin.as_str()) {
        Some(d) => {
            if d.jour < t.jour && egal(c.statut.as_str(), "Actif") {
                t.jour as i64 - d.jour as i64
            } else {
                0
            }
        },
        None => 0,
    }
}

/// Jours de retard, pénalité et total dû (reste plus pénalité) d'un contrat
/// le jour `t`, en centimes.
pub fn situation_impaye(c: &Contrat, t: Date) -> (r: (i64, i128, i128))
    requires
        jour_valide(t.jour as int),
    ensures
        r.0 == jours_retard(*c, t.jour as int),
        r.1 == penalite(*c, t.jour as int),
        r.2 == reste_contrat(*c) + penalite(*c, t.jour as int),
{
    let j = retard_jours(c, t);
    proof {
        let tj = c.tarif_jour as int;
        assert(-ecart_max() * 0x8000_0000_0000_0000 <= j * tj <= ecart_max() * 0x8000_0000_0000_0000)
            by (nonlinear_arith)
            requires
                0 <= j <= ecart_max(),
                -0x8000_0000_0000_0000 <= tj < 0x8000_0000_0000_0000,
        ;
    }
    let p = j as i128 * c.tarif_jour as i128;
    let reste = c.reste_a_payer();
    (j, p, reste + p)
}

impl App {
    /// Impayés affichés le jour `t` : contrats impayés qui répondent à la
    /// recherche saisie.
    pub fn impayes_le(&self, t: Date) -> (r: Vec<Contrat>)
        ensures
            r@ == impayes_affiches(*self, t.jour as int),
    {
        let q = cle_de(self.impaye_recherche.as_str());
        let ghost p = impaye_le(t.jour as int);
        let ghost pq = repond_impaye(q@);
        let mut tous: Vec<Contrat> = Vec::new();
        let mut i: usize = 0;
        proof {
            lemme_filtre_vide(self.contrats@, p);
        }
        while i < self.contrats.len()
            invariant
                0 <= i <= self.contrats.len(),
                p == impaye_le(t.jour as int),
                tous@ == self.contrats@.take(i as int).filter(p),
            decreases self.contrats.len() - i,
        {
            proof {
                lemme_filtre_pas(self.contrats@, p, i as int);
            }
            let c = &self.contrats[i];
            let statut_ok = egal(c.statut.as_str(), "Actif") || egal(c.statut.as_str(), "Terminé");
            if statut_ok && c.reste_a_payer() > 0 {
                match date_iso(c.date_debut.as_str()) {
                    Some(d) => {
                        if d.jour <= t.jour {
                            tous.push(c.copie());
                        }
                    },
                    None => {},
                }
            }
            i = i + 1;
        }
        assert(self.contrats@.take(self.contrats.len() as int) =~= self.contrats@);
        let mut r: Vec<Contrat> = Vec::new();
        let mut k: usize = 0;
        proof {
            lemme_filtre_vide(tous@, pq);
        }
        while k < tous.len()
            invariant
                0 <= k <= tous.len(),
                pq == repond_impaye(q@),
                r@ == tous@.take(k as int).filter(pq),
            decreases tous.len() - k,
        {
            proof {
                lemme_filtre_pas(tous@, pq, k as int);
            }
            let c = &tous[k];
            let qs = q.as_str();
            if qs.unicode_len() == 0 || correspond_texte(c.client_nom.as_str(), qs) || correspond_texte(
                c.client_tel.as_str(),
                qs,
            ) || correspond_texte(c.numero.as_str(), qs) || correspond_texte(
                c.voiture_modele.as_str(),
                qs,
            ) {
                r.push(c.copie());
            }
            k = k + 1;
        }
        assert(tous@.take(tous.len() as int) =~= tous@);
        r
    }
}

/// Total dû d'une liste de contrats : la somme de leurs restes à payer, en
/// centimes ; `None` si le calcul sort des entiers sur 128 bits.
pub fn total_du(liste: &Vec<Contrat>) -> (r: Option<i128>)
    ensures
        match r {
            Some(x) => somme_bornee(restes(liste@)) == Some(x as int),
            None => somme_bornee(restes(liste@)) is None,
        },
{
    let mut v: Vec<i128> = Vec::new();
    let mut i: usize = 0;
    assert(valeurs(v@) =~= restes(liste@.take(0)));
    while i < liste.len()
        invariant
            0 <= i <= liste.len(),
            valeurs(v@) == restes(liste@.take(i as int)),
        decreases liste.len() - i,
    {
        let ghost avant = v@;
        v.push(liste[i].reste_a_payer());
        proof {
            assert(valeurs(v@) =~= valeurs(avant).push(reste_contrat(liste@[i as int])));
            assert(liste@.take(i + 1) =~= liste@.take(i as int).push(liste@[i as int]));
            assert(restes(liste@.take(i + 1)) =~= restes(liste@.take(i as int)).push(
                reste_contrat(liste@[i as int]),
            ));
        }
        i = i + 1;
    }
    assert(liste@.take(liste.len() as int) =~= liste@);
    additionner(&v)
}

} // verus!
