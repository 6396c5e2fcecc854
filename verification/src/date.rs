//! Dates du calendrier grégorien, représentées par leur numéro de jour, et
//! appels à `chrono` pour les lire, les écrire et connaître la date du jour.
use vstd::prelude::*;
use vstd::string::*;
use chrono::{Datelike, NaiveDate};
use crate::texte::{rogne, rogner, copie_texte, lemme_rogne_sans_espace};
use crate::nombre::{est_chiffre, car_chiffre, ecriture_4};

verus! {

/// Numéro de jour du 1er janvier de l'an -262143, la plus petite date de `chrono`.
pub open spec fn jour_min() -> int {
    -95746129
}

/// Numéro de jour du 31 décembre 262142, la plus grande date de `chrono`.
pub open spec fn jour_max() -> int {
    95745399
}

/// Numéro de jour représentable par une date `chrono`.
pub open spec fn jour_valide(n: int) -> bool {
    jour_min() <= n <= jour_max()
}

/// Une date, donnée par son numéro de jour depuis l'ère commune : le 1er
/// janvier de l'an 1 porte le numéro 1 (`Datelike::num_days_from_ce`). Deux
/// dates se comparent et se soustraient par leur numéro.
#[derive(Clone, Copy, Debug, PartialEq, Eq, Structural)]
pub struct Date {
    pub jour: i32,
}

/// Format « JJ/MM/AAAA » (`%d/%m/%Y`).
pub open spec fn format_jma() -> Seq<char> {
    seq!['%', 'd', '/', '%', 'm', '/', '%', 'Y']
}

/// Format ISO « AAAA-MM-JJ » (`%Y-%m-%d`).
pub open spec fn format_iso() -> Seq<char> {
    seq!['%', 'Y', '-', '%', 'm', '-', '%', 'd']
}

/// Le littéral du format « JJ/MM/AAAA ».
pub fn texte_format_jma() -> (r: &'static str)
    ensures
        r@ == format_jma(),
{
    proof {
        reveal_strlit("%d/%m/%Y");
    }
    "%d/%m/%Y"
}

/// Le littéral du format ISO.
pub fn texte_format_iso() -> (r: &'static str)
    ensures
        r@ == format_iso(),
{
    proof {
        reveal_strlit("%Y-%m-%d");
    }
    "%Y-%m-%d"
}

/// Date lue par `NaiveDate::parse_from_str(texte, format)`, par son numéro de jour.
pub uninterp spec fn date_analysee(texte: Seq<char>, format: Seq<char>) -> Option<int>;


/// Numéro de jour de la date (année, mois, jour) du calendrier grégorien
/// proleptique, l'an 0 compris : jours écoulés par cycles de 400 ans, l'année
/// étant comptée à partir du 1er mars.
pub open spec fn jours_depuis_ere(annee: int, mois: int, jour: int) -> int {
    let y = if mois <= 2 {
        annee - 1
    } else {
        annee
    };
    let cycle = y / 400;
    let an = y - cycle * 400;
    let mp = (mois + 9) % 12;
    let dans_an = (153 * mp + 2) / 5 + jour - 1;
    let dans_cycle = an * 365 + an / 4 - an / 100 + dans_an;
    cycle * 146097 + dans_cycle - 305
}

/// Année, mois et jour de la date de numéro `n` (inverse de `jours_depuis_ere`).
pub open spec fn calendrier(n: int) -> (int, int, int) {
    let z = n + 305;
    let cycle = z / 146097;
    let dans_cycle = z - cycle * 146097;
    let an = (dans_cycle - dans_cycle / 1460 + dans_cycle / 36524 - dans_cycle / 146096) / 365;
    let dans_an = dans_cycle - (365 * an + an / 4 - an / 100);
    let mp = (5 * dans_an + 2) / 153;
    let jour = dans_an - (153 * mp + 2) / 5 + 1;
    let mois = if mp < 10 {
        mp + 3
    } else {
        mp - 9
    };
    let annee = an + cycle * 400;
    (
        if mois <= 2 {
            annee + 1
        } else {
            annee
        },
        mois,
        jour,
    )
}

/// Jour ou mois écrit sur deux chiffres (`%d`, `%m`).
pub open spec fn deux_chiffres(n: int) -> Seq<char> {
    seq![car_chiffre((n / 10) as nat), car_chiffre((n % 10) as nat)]
}

/// Année écrite par `%Y` : sur quatre chiffres de 0 à 9999, sinon précédée
/// de son signe et sur quatre chiffres au moins.
pub open spec fn ecriture_annee(a: int) -> Seq<char> {
    if 0 <= a <= 9999 {
        ecriture_4(a as nat)
    } else if a < 0 {
        seq!['-'] + ecriture_4((-a) as nat)
    } else {
        seq!['+'] + ecriture_4(a as nat)
    }
}

/// Texte de la date de numéro `jour` au format ISO (« AAAA-MM-JJ ») si
/// `format` est ce format, sinon au format « JJ/MM/AAAA ».
#[verifier::opaque]
pub open spec fn date_ecrite(jour: int, format: Seq<char>) -> Seq<char> {
    let c = calendrier(jour);
    if format == format_iso() {
        ecriture_annee(c.0) + seq!['-'] + deux_chiffres(c.1) + seq!['-'] + deux_chiffres(c.2)
    } else {
        deux_chiffres(c.2) + seq!['/'] + deux_chiffres(c.1) + seq!['/'] + ecriture_annee(c.0)
    }
}

/// Année et mois (de 1 à 12) de la date de numéro `jour`.
#[verifier::opaque]
pub open spec fn annee_mois(jour: int) -> (int, int) {
    (calendrier(jour).0, calendrier(jour).1)
}

/// Numéro de jour de la date (année, mois, jour), si elle existe dans le
/// calendrier et entre les dates extrêmes de `chrono`.
#[verifier::opaque]
pub open spec fn date_du_calendrier(annee: int, mois: int, jour: int) -> Option<int> {
    let n = jours_depuis_ere(annee, mois, jour);
    if 1 <= mois <= 12 && 1 <= jour <= 31 && calendrier(n) == (annee, mois, jour) && jour_valide(
        n,
    ) {
        Some(n)
    } else {
        None
    }
}

/// Appelle `NaiveDate::parse_from_str` et rend le numéro de jour de la date lue.
/// Le résultat, nommé `date_analysee`, ne dépend que du texte et du format ;
/// toute date de `chrono` a un numéro compris entre `jour_min` et `jour_max`.
#[verifier::external_body]
pub(crate) fn analyser_date(texte: &str, format: &str) -> (r: Option<Date>)
    ensures
        match r {
            Some(d) => date_analysee(texte@, format@) == Some(d.jour as int),
            None => date_analysee(texte@, format@) is None,
        },
        r matches Some(d) ==> jour_valide(d.jour as int),
{
    match NaiveDate::parse_from_str(texte, format) {
        Ok(d) => Some(Date { jour: d.num_days_from_ce() }),
        Err(_) => None,
    }
}

/// Appelle `NaiveDate::from_num_days_from_ce_opt` puis `format(..).to_string()`.
/// Le texte est `date_ecrite` (`format/formatting.rs`) : `%m` et `%d`
/// s'écrivent sur deux chiffres ; `%Y` sur quatre chiffres pour une année de 0
/// à 9999, sinon précédé de son signe (`+` ou `-`) et complété de zéros à
/// quatre chiffres. Le texte finit donc par un chiffre ; au format « JJ/MM/AAAA »
/// il commence par un chiffre, au format ISO par trois chiffres ou un signe, et
/// il a dix caractères quand l'année tient sur quatre chiffres. Sa relecture
/// avec le même format redonne la date : `%Y` lu sans signe prend au plus
/// quatre chiffres, avec signe tous les chiffres qui suivent (`format/parse.rs`).
/// Un texte ISO ne se lit pas au format « JJ/MM/AAAA » : `%d` y prend deux
/// chiffres et le troisième caractère n'est pas `/`, ou bien le texte commence
/// par un signe, que `%d` refuse.
#[verifier::external_body]
pub(crate) fn ecrire_date(d: Date, format: &str) -> (r: String)
    requires
        jour_valide(d.jour as int),
        format@ == format_jma() || format@ == format_iso(),
    ensures
        r@ == date_ecrite(d.jour as int, format@),
        date_analysee(r@, format@) == Some(d.jour as int),
        r@.len() >= 3,
        est_chiffre(r@.last()),
        format@ == format_jma() ==> est_chiffre(r@[0]),
        format@ == format_iso() ==> (est_chiffre(r@[0]) && est_chiffre(r@[1]) && est_chiffre(
            r@[2],
        )) || r@[0] == '+' || r@[0] == '-',
        format@ == format_iso() ==> date_analysee(r@, format_jma()) is None,
        0 <= annee_mois(d.jour as int).0 <= 9999 ==> r@.len() == 10,
{
    match NaiveDate::from_num_days_from_ce_opt(d.jour) {
        Some(n) => n.format(format).to_string(),
        None => String::new(),
    }
}

/// Appelle `Datelike::year` et `Datelike::month` sur la date : l'année et le
/// mois du calendrier grégorien proleptique de `chrono`, soit `annee_mois` ;
/// le mois va de 1 à 12.
#[verifier::external_body]
pub(crate) fn annee_et_mois(d: Date) -> (r: (i32, u32))
    requires
        jour_valide(d.jour as int),
    ensures
        annee_mois(d.jour as int) == (r.0 as int, r.1 as int),
        1 <= r.1 <= 12,
{
    match NaiveDate::from_num_days_from_ce_opt(d.jour) {
        Some(n) => (n.year(), n.month()),
        None => (0, 1),
    }
}

/// Appelle `NaiveDate::from_ymd_opt` : la date existe si le mois va de 1 à 12,
/// si le jour existe dans ce mois et si l'année est entre `MIN_YEAR` et
/// `MAX_YEAR` ; son numéro est alors celui du calendrier grégorien proleptique,
/// soit `date_du_calendrier`.
#[verifier::external_body]
pub(crate) fn date_de_calendrier(annee: i32, mois: u32, jour: u32) -> (r: Option<Date>)
    ensures
        match r {
            Some(d) => date_du_calendrier(annee as int, mois as int, jour as int) == Some(
                d.jour as int,
            ),
            None => date_du_calendrier(annee as int, mois as int, jour as int) is None,
        },
        r matches Some(d) ==> jour_valide(d.jour as int),
{
    match NaiveDate::from_ymd_opt(annee, mois, jour) {
        Some(n) => Some(Date { jour: n.num_days_from_ce() }),
        None => None,
    }
}

/// Numéro de jour d'une date optionnelle.
pub open spec fn jour_opt(d: Option<Date>) -> Option<int> {
    match d {
        Some(x) => Some(x.jour as int),
        None => None,
    }
}

/// Date saisie par l'utilisateur : le texte rogné, lu d'abord au format
/// « JJ/MM/AAAA », sinon au format ISO.
pub open spec fn date_saisie(s: Seq<char>) -> Option<int> {
    match date_analysee(rogne(s), format_jma()) {
        Some(n) => Some(n),
        None => date_analysee(rogne(s), format_iso()),
    }
}

/// Lit une date saisie, au format « JJ/MM/AAAA » ou ISO.
pub fn parse_date(s: &str) -> (r: Option<Date>)
    ensures
        jour_opt(r) == date_saisie(s@),
        r matches Some(d) ==> jour_valide(d.jour as int),
{
    let t = rogner(s);
    match analyser_date(t.as_str(), texte_format_jma()) {
        Some(d) => Some(d),
        None => analyser_date(t.as_str(), texte_format_iso()),
    }
}

/// Lit une date enregistrée au format ISO (texte non rogné).
pub fn date_iso(s: &str) -> (r: Option<Date>)
    ensures
        jour_opt(r) == date_analysee(s@, format_iso()),
        r matches Some(d) ==> jour_valide(d.jour as int),
{
    analyser_date(s, texte_format_iso())
}

/// Affichage d'une date ISO au format « JJ/MM/AAAA » ; le texte est rendu tel
/// quel s'il n'est pas une date ISO.
pub open spec fn affichage_date(iso: Seq<char>) -> Seq<char> {
    match date_analysee(iso, format_iso()) {
        Some(n) => date_ecrite(n, format_jma()),
        None => iso,
    }
}

/// Le texte saisi se relit en la date ISO `iso`, quand celle-ci se lit.
pub open spec fn se_relit_en(texte: Seq<char>, iso: Seq<char>) -> bool {
    match date_analysee(iso, format_iso()) {
        Some(n) => date_saisie(texte) == Some(n),
        None => true,
    }
}

/// Texte d'une date `n` : saisi, il se relit en `n` ; il a dix caractères
/// quand l'année s'écrit sur quatre chiffres.
pub open spec fn texte_du_jour(texte: Seq<char>, n: int) -> bool {
    &&& date_saisie(texte) == Some(n)
    &&& 0 <= annee_mois(n).0 <= 9999 ==> texte.len() == 10
}

/// Affiche une date enregistrée au format ISO.
pub fn afficher_date(iso: &str) -> (r: String)
    ensures
        r@ == affichage_date(iso@),
        se_relit_en(r@, iso@),
{
    match date_iso(iso) {
        Some(d) => {
            let r = ecrire_date(d, texte_format_jma());
            proof {
                lemme_rogne_sans_espace(r@);
            }
            r
        },
        None => copie_texte(iso),
    }
}

/// Écrit une date au format ISO pour l'enregistrement.
pub fn stocker_date(d: Date) -> (r: String)
    requires
        jour_valide(d.jour as int),
    ensures
        r@ == date_ecrite(d.jour as int, format_iso()),
        date_analysee(r@, format_iso()) == Some(d.jour as int),
        date_saisie(r@) == Some(d.jour as int),
{
    let r = ecrire_date(d, texte_format_iso());
    proof {
        lemme_rogne_sans_espace(r@);
    }
    r
}

/// Écrit une date au format « JJ/MM/AAAA ».
pub fn texte_jma(d: Date) -> (r: String)
    requires
        jour_valide(d.jour as int),
    ensures
        r@ == date_ecrite(d.jour as int, format_jma()),
        texte_du_jour(r@, d.jour as int),
{
    let r = ecrire_date(d, texte_format_jma());
    proof {
        lemme_rogne_sans_espace(r@);
    }
    r
}

/// La date décalée de `n` jours, si elle reste une date de `chrono`.
pub fn plus_jours(d: Date, n: i32) -> (r: Option<Date>)
    ensures
        match r {
            Some(x) => x.jour == d.jour + n && jour_valide(x.jour as int),
            None => !jour_valide(d.jour + n),
        },
{
    let s = d.jour as i64 + n as i64;
    if -95746129 <= s && s <= 95745399 {
        Some(Date { jour: s as i32 })
    } else {
        None
    }
}

/// Nombre de jours de `a` à `b`.
pub fn ecart_jours(a: Date, b: Date) -> (r: i64)
    ensures
        r == b.jour - a.jour,
{
    b.jour as i64 - a.jour as i64
}

/// Le texte « JJ/MM/AAAA » du jour `t`, la date du jour que l'appelant a lue
/// sur l'horloge.
pub fn aujourd_hui(t: Date) -> (r: String)
    requires
        jour_valide(t.jour as int),
    ensures
        r@ == date_ecrite(t.jour as int, format_jma()),
        texte_du_jour(r@, t.jour as int),
{
    texte_jma(t)
}

/// La date située sept jours après `d` (`d` elle-même si la date décalée sort
/// du calendrier de `chrono`).
pub open spec fn jour_dans_7j(d: int) -> int {
    if jour_valide(d + 7) {
        d + 7
    } else {
        d
    }
}

/// Le texte « JJ/MM/AAAA » de la date située sept jours après `d`.
pub open spec fn texte_dans_7j(d: int) -> Seq<char> {
    date_ecrite(jour_dans_7j(d), format_jma())
}

/// Texte de la date située sept jours après `d` (dans sept jours, pour la
/// date du jour).
pub fn dans_7j(d: Date) -> (r: String)
    requires
        jour_valide(d.jour as int),
    ensures
        r@ == texte_dans_7j(d.jour as int),
        texte_du_jour(r@, jour_dans_7j(d.jour as int)),
{
    match plus_jours(d, 7) {
        Some(x) => texte_jma(x),
        None => texte_jma(d),
    }
}

} // verus!
