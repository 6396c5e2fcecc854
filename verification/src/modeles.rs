//! Les données de l'agence : voitures, contrats, ventes, réparations et caisse.
//! Montants et kilométrages sont en centièmes ; les dates sont enregistrées
//! au format ISO.
use vstd::prelude::*;
use crate::texte::egal;
use crate::date::{Date, date_analysee, format_iso, date_iso, ecart_jours};

verus! {

/// Une voiture du parc.
#[derive(Clone, Debug)]
pub struct Voiture {
    pub id: u64,
    pub modele: String,
    pub plaque: String,
    pub categorie: String,
    pub couleur: String,
    pub annee: u32,
    /// Tarif journalier, en centimes.
    pub tarif_jour: i64,
    pub etat: String,
}

/// Un contrat de location.
#[derive(Clone, Debug)]
pub struct Contrat {
    pub id: u64,
    pub numero: String,
    pub voiture_id: u64,
    pub voiture_modele: String,
    pub voiture_plaque: String,
    pub client_nom: String,
    pub client_tel: String,
    pub agent: String,
    /// Date de début, au format ISO.
    pub date_debut: String,
    /// Date de fin, au format ISO.
    pub date_fin: String,
    pub heure_debut: String,
    pub heure_fin: String,
    /// Kilométrage au départ, en centièmes de kilomètre.
    pub km_depart: i64,
    /// Kilométrage au retour, en centièmes de kilomètre.
    pub km_retour: i64,
    /// Tarif journalier, en centimes.
    pub tarif_jour: i64,
    pub notes: String,
    pub statut: String,
    /// Montant déjà payé, en centimes.
    pub montant_paye: i64,
    pub modifiable_note: String,
}

/// Une voiture proposée à la vente.
#[derive(Clone, Debug)]
pub struct VoitureVente {
    pub id: u64,
    pub nom: String,
    pub plaque: String,
    pub num_chassis: String,
    pub num_immat: String,
    pub annee: u32,
    pub prix_achat: i64,
    pub prix_demande: i64,
    pub prix_vendu: i64,
    pub vendu: bool,
    pub date_vente: String,
    pub notes: String,
}

/// Une réparation faite sur une voiture du parc.
#[derive(Clone, Debug)]
pub struct Reparation {
    pub id: u64,
    pub voiture_id: u64,
    pub voiture_modele: String,
    pub voiture_plaque: String,
    pub date: String,
    pub description: String,
    /// Prix tel que saisi (texte libre).
    pub prix: String,
    pub observation: String,
}

/// Une période de caisse.
#[derive(Clone, Debug)]
pub struct PeriodeCaisse {
    pub id: u64,
    pub nom: String,
    pub date_debut: String,
    pub date_fin: String,
    pub fermee: bool,
}

/// Une entrée d'argent dans une période de caisse.
#[derive(Clone, Debug)]
pub struct Encaissement {
    pub id: u64,
    pub periode_id: u64,
    pub date: String,
    pub client_nom: String,
    pub contrat_numero: String,
    pub voiture: String,
    pub details: String,
    pub montant: i64,
}

/// Une sortie d'argent dans une période de caisse.
#[derive(Clone, Debug)]
pub struct Decaissement {
    pub id: u64,
    pub periode_id: u64,
    pub date: String,
    pub nom: String,
    pub details: String,
    pub montant: i64,
}

/// Statut d'un contrat en cours.
pub open spec fn statut_actif() -> Seq<char> {
    "Actif"@
}

/// Statut d'un contrat terminé.
pub open spec fn statut_termine() -> Seq<char> {
    "Terminé"@
}

/// Statut d'un contrat annulé.
pub open spec fn statut_annule() -> Seq<char> {
    "Annulé"@
}

/// Nombre de jours facturés : l'écart entre les dates ISO de début et de fin,
/// au moins un ; un si l'une des dates ne se lit pas.
pub open spec fn nb_jours(c: Contrat) -> int {
    match (date_analysee(c.date_debut@, format_iso()), date_analysee(c.date_fin@, format_iso())) {
        (Some(a), Some(b)) => if b - a >= 1 {
            b - a
        } else {
            1
        },
        _ => 1,
    }
}

/// Prix total du contrat, en centimes.
pub open spec fn total_contrat(c: Contrat) -> int {
    nb_jours(c) * c.tarif_jour
}

/// Reste à payer, en centimes (jamais négatif).
pub open spec fn reste_contrat(c: Contrat) -> int {
    if c.montant_paye >= total_contrat(c) {
        0
    } else {
        total_contrat(c) - c.montant_paye
    }
}

/// Le contrat occupe la voiture sur la période de `du` à `au` : il n'est pas
/// annulé, ses deux dates ISO se lisent, il commence avant `au` et finit après `du`.
pub open spec fn chevauche_spec(c: Contrat, du: int, au: int) -> bool {
    c.statut@ != statut_annule() && match (
        date_analysee(c.date_debut@, format_iso()),
        date_analysee(c.date_fin@, format_iso()),
    ) {
        (Some(a), Some(b)) => a < au && b > du,
        _ => false,
    }
}

/// Plus grand écart, en jours, entre deux dates de `chrono`.
pub open spec fn ecart_max() -> int {
    191491528
}

impl Voiture {
    /// Copie de la voiture.
    pub fn copie(&self) -> (r: Voiture)
        ensures
            r == *self,
    {
        Voiture {
            id: self.id,
            modele: self.modele.clone(),
            plaque: self.plaque.clone(),
            categorie: self.categorie.clone(),
            couleur: self.couleur.clone(),
            annee: self.annee,
            tarif_jour: self.tarif_jour,
            etat: self.etat.clone(),
        }
    }
}

impl Contrat {
    /// Copie du contrat.
    pub fn copie(&self) -> (r: Contrat)
        ensures
            r == *self,
    {
        Contrat {
            id: self.id,
            numero: self.numero.clone(),
            voiture_id: self.voiture_id,
            voiture_modele: self.voiture_modele.clone(),
            voiture_plaque: self.voiture_plaque.clone(),
            client_nom: self.client_nom.clone(),
            client_tel: self.client_tel.clone(),
            agent: self.agent.clone(),
            date_debut: self.date_debut.clone(),
            date_fin: self.date_fin.clone(),
            heure_debut: self.heure_debut.clone(),
            heure_fin: self.heure_fin.clone(),
            km_depart: self.km_depart,
            km_retour: self.km_retour,
            tarif_jour: self.tarif_jour,
            notes: self.notes.clone(),
            statut: self.statut.clone(),
            montant_paye: self.montant_paye,
            modifiable_note: self.modifiable_note.clone(),
        }
    }

    /// Nombre de jours facturés.
    pub fn jours(&self) -> (r: i64)
        ensures
            r == nb_jours(*self),
            1 <= r <= ecart_max(),
    {
        match (date_iso(self.date_debut.as_str()), date_iso(self.date_fin.as_str())) {
            (Some(a), Some(b)) => {
                let e = ecart_jours(a, b);
                if e >= 1 {
                    e
                } else {
                    1
                }
            },
            _ => 1,
        }
    }

    /// Prix total du contrat, en centimes.
    pub fn total(&self) -> (r: i128)
        ensures
            r == total_contrat(*self),
            -ecart_max() * 0x8000_0000_0000_0000 <= r <= ecart_max() * 0x8000_0000_0000_0000,
    {
        let j = self.jours();
        proof {
            let t = self.tarif_jour as int;
            assert(-ecart_max() * 0x8000_0000_0000_0000 <= j * t <= ecart_max()
                * 0x8000_0000_0000_0000) by (nonlinear_arith)
                requires
                    1 <= j <= ecart_max(),
                    -0x8000_0000_0000_0000 <= t < 0x8000_0000_0000_0000,
            ;
        }
        j as i128 * self.tarif_jour as i128
    }

    /// Reste à payer, en centimes.
    pub fn reste_a_payer(&self) -> (r: i128)
        ensures
            r == reste_contrat(*self),
            0 <= r <= ecart_max() * 0x8000_0000_0000_0000 + 0x8000_0000_0000_0000,
    {
        let t = self.total();
        if self.montant_paye as i128 >= t {
            0
        } else {
            t - self.montant_paye as i128
        }
    }

    /// Kilomètres parcourus, en centièmes (zéro si le retour n'est pas au-delà du départ).
    pub fn km_parcourus(&self) -> (r: i128)
        ensures
            r == (if self.km_retour > self.km_depart {
                self.km_retour - self.km_depart
            } else {
                0
            }),
    {
        if self.km_retour > self.km_depart {
            self.km_retour as i128 - self.km_depart as i128
        } else {
            0
        }
    }

    /// Le contrat occupe-t-il la voiture sur la période de `du` à `au` ?
    pub fn chevauche(&self, du: Date, au: Date) -> (r: bool)
        ensures
            r == chevauche_spec(*self, du.jour as int, au.jour as int),
    {
        if egal(self.statut.as_str(), "Annulé") {
            return false;
        }
        match (date_iso(self.date_debut.as_str()), date_iso(self.date_fin.as_str())) {
            (Some(a), Some(b)) => a.jour < au.jour && b.jour > du.jour,
            _ => false,
        }
    }
}

/// Bénéfice d'une vente : prix de vente moins prix d'achat, si la voiture est
/// vendue et que son prix d'achat est connu (positif) ; zéro sinon.
pub open spec fn benefice_vente(v: VoitureVente) -> int {
    if v.vendu && v.prix_achat > 0 {
        v.prix_vendu - v.prix_achat
    } else {
        0
    }
}

impl VoitureVente {
    /// Copie de la fiche de vente.
    pub fn copie(&self) -> (r: VoitureVente)
        ensures
            r == *self,
    {
        VoitureVente {
            id: self.id,
            nom: self.nom.clone(),
            plaque: self.plaque.clone(),
            num_chassis: self.num_chassis.clone(),
            num_immat: self.num_immat.clone(),
            annee: self.annee,
            prix_achat: self.prix_achat,
            prix_demande: self.prix_demande,
            prix_vendu: self.prix_vendu,
            vendu: self.vendu,
            date_vente: self.date_vente.clone(),
            notes: self.notes.clone(),
        }
    }

    /// Bénéfice de la vente, en centimes.
    pub fn benefice(&self) -> (r: i128)
        ensures
            r == benefice_vente(*self),
    {
        if self.vendu && self.prix_achat > 0 {
            self.prix_vendu as i128 - self.prix_achat as i128
        } else {
            0
        }
    }
}

impl Reparation {
    /// Copie de la réparation.
    pub fn copie(&self) -> (r: Reparation)
        ensures
            r == *self,
    {
        Reparation {
            id: self.id,
            voiture_id: self.voiture_id,
            voiture_modele: self.voiture_modele.clone(),
            voiture_plaque: self.voiture_plaque.clone(),
            date: self.date.clone(),
            description: self.description.clone(),
            prix: self.prix.clone(),
            observation: self.observation.clone(),
        }
    }
}

impl PeriodeCaisse {
    /// Copie de la période.
    pub fn copie(&self) -> (r: PeriodeCaisse)
        ensures
            r == *self,
    {
        PeriodeCaisse {
            id: self.id,
            nom: self.nom.clone(),
            date_debut: self.date_debut.clone(),
            date_fin: self.date_fin.clone(),
            fermee: self.fermee,
        }
    }
}

impl Encaissement {
    /// Copie de l'encaissement.
    pub fn copie(&self) -> (r: Encaissement)
        ensures
            r == *self,
    {
        Encaissement {
            id: self.id,
            periode_id: self.periode_id,
            date: self.date.clone(),
            client_nom: self.client_nom.clone(),
            contrat_numero: self.contrat_numero.clone(),
            voiture: self.voiture.clone(),
            details: self.details.clone(),
            montant: self.montant,
        }
    }
}

impl Decaissement {
    /// Copie du décaissement.
    pub fn copie(&self) -> (r: Decaissement)
        ensures
            r == *self,
    {
        Decaissement {
            id: self.id,
            periode_id: self.periode_id,
            date: self.date.clone(),
            nom: self.nom.clone(),
            details: self.details.clone(),
            montant: self.montant,
        }
    }
}

} // verus!

verus! {

/// Données repérées par un identifiant.
pub trait Identifie {
    /// Identifiant de l'élément.
    spec fn ident(&self) -> u64;

    /// Identifiant de l'élément, en exécution.
    fn identifiant(&self) -> (r: u64)
        ensures
            r == self.ident(),
    ;
}

impl Identifie for Voiture {
    open spec fn ident(&self) -> u64 {
        self.id
    }

    fn identifiant(&self) -> (r: u64) {
        self.id
    }
}

impl Identifie for Contrat {
    open spec fn ident(&self) -> u64 {
        self.id
    }

    fn identifiant(&self) -> (r: u64) {
        self.id
    }
}

impl Identifie for VoitureVente {
    open spec fn ident(&self) -> u64 {
        self.id
    }

    fn identifiant(&self) -> (r: u64) {
        self.id
    }
}

impl Identifie for Reparation {
    open spec fn ident(&self) -> u64 {
        self.id
    }

    fn identifiant(&self) -> (r: u64) {
        self.id
    }
}

impl Identifie for PeriodeCaisse {
    open spec fn ident(&self) -> u64 {
        self.id
    }

    fn identifiant(&self) -> (r: u64) {
        self.id
    }
}

impl Identifie for Encaissement {
    open spec fn ident(&self) -> u64 {
        self.id
    }

    fn identifiant(&self) -> (r: u64) {
        self.id
    }
}

impl Identifie for Decaissement {
    open spec fn ident(&self) -> u64 {
        self.id
    }

    fn identifiant(&self) -> (r: u64) {
        self.id
    }
}

/// Plus grand identifiant d'une suite (zéro si elle est vide).
pub open spec fn max_ident<T: Identifie>(s: Seq<T>) -> nat
    decreases s.len(),
{
    if s.len() == 0 {
        0
    } else {
        let m = max_ident(s.drop_last());
        if s.last().ident() > m {
            s.last().ident() as nat
        } else {
            m
        }
    }
}

/// Identifiant du prochain élément : le plus grand identifiant plus un.
pub fn prochain_identifiant<T: Identifie>(v: &Vec<T>) -> (r: u64)
    requires
        max_ident(v@) < u64::MAX,
    ensures
        r == max_ident(v@) + 1,
{
    let mut m: u64 = 0;
    let mut i: usize = 0;
    while i < v.len()
        invariant
            0 <= i <= v.len(),
            m == max_ident(v@.take(i as int)),
        decreases v.len() - i,
    {
        assert(v@.take(i + 1).drop_last() =~= v@.take(i as int));
        let x = v[i].identifiant();
        if x > m {
            m = x;
        }
        i = i + 1;
    }
    assert(v@.take(v.len() as int) =~= v@);
    m + 1
}

/// Les éléments dont l'identifiant n'est pas `id`.
pub open spec fn sans_ident<T: Identifie>(s: Seq<T>, id: u64) -> Seq<T> {
    s.filter(autre_ident(id))
}

/// L'élément ne porte pas l'identifiant `id`.
pub open spec fn autre_ident<T: Identifie>(id: u64) -> spec_fn(T) -> bool {
    |x: T| x.ident() != id
}


/// Retire les éléments d'identifiant `id`, en gardant l'ordre des autres.
pub fn retirer_ident<T: Identifie>(v: &mut Vec<T>, id: u64)
    ensures
        final(v)@ == sans_ident(old(v)@, id),
{
    let ghost o = v@;
    let ghost p = autre_ident::<T>(id);
    let ghost mut k: int = 0;
    let mut i: usize = 0;
    proof {
        crate::outils::lemme_filtre_vide(o, p);
        assert(v@.take(0) =~= o.take(0).filter(p));
        assert(v@.skip(0) =~= o.skip(0));
    }
    while i < v.len()
        invariant
            0 <= i <= v.len(),
            0 <= k <= o.len(),
            p == autre_ident::<T>(id),
            v@.take(i as int) == o.take(k).filter(p),
            v@.skip(i as int) == o.skip(k),
            v@.len() - i == o.len() - k,
        decreases v.len() - i,
    {
        proof {
            crate::outils::lemme_filtre_pas(o, p, k);
            assert(v@[i as int] == o.skip(k)[0]);
        }
        if v[i].identifiant() == id {
            let ghost avant = v@;
            v.remove(i);
            proof {
                assert(v@.take(i as int) =~= avant.take(i as int));
                assert(v@.skip(i as int) =~= avant.skip(i + 1));
                assert(avant.skip(i + 1) =~= o.skip(k).skip(1));
                assert(o.skip(k).skip(1) =~= o.skip(k + 1));
                k = k + 1;
            }
        } else {
            proof {
                assert(v@.take(i + 1) =~= v@.take(i as int).push(v@[i as int]));
                assert(v@.skip(i + 1) =~= v@.skip(i as int).skip(1));
                assert(o.skip(k).skip(1) =~= o.skip(k + 1));
                k = k + 1;
            }
            i = i + 1;
        }
    }
    proof {
        assert(o.skip(k).len() == 0);
        assert(k == o.len());
        assert(o.take(k) =~= o);
        assert(v@.take(i as int) =~= v@);
        assert(v@ == o.filter(p));
    }
}

} // verus!

verus! {

/// L'élément de rang `k` est le premier d'identifiant `id`.
pub open spec fn rang_ident<T: Identifie>(s: Seq<T>, id: u64, k: int) -> bool {
    0 <= k < s.len() && s[k].ident() == id && forall|j: int| 0 <= j < k ==> s[j].ident() != id
}

/// Aucun élément ne porte l'identifiant `id`.
pub open spec fn absent<T: Identifie>(s: Seq<T>, id: u64) -> bool {
    forall|k: int| 0 <= k < s.len() ==> s[k].ident() != id
}

/// Rang du premier élément d'identifiant `id`.
pub fn chercher_ident<T: Identifie>(v: &Vec<T>, id: u64) -> (r: Option<usize>)
    ensures
        match r {
            Some(k) => rang_ident(v@, id, k as int),
            None => absent(v@, id),
        },
{
    let mut i: usize = 0;
    while i < v.len()
        invariant
            0 <= i <= v.len(),
            forall|k: int| 0 <= k < i ==> v@[k].ident() != id,
        decreases v.len() - i,
    {
        if v[i].identifiant() == id {
            return Some(i);
        }
        i = i + 1;
    }
    None
}

/// Le premier rang d'un identifiant est unique.
pub proof fn lemme_rang_unique<T: Identifie>(s: Seq<T>, id: u64, k1: int, k2: int)
    requires
        rang_ident(s, id, k1),
        rang_ident(s, id, k2),
    ensures
        k1 == k2,
{
    if k1 < k2 {
        assert(s[k1].ident() != id);
    } else if k2 < k1 {
        assert(s[k2].ident() != id);
    }
}

} // verus!
