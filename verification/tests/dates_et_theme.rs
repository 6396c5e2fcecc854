use iam_business::date::{
    afficher_date, date_iso, dans_7j, ecart_jours, parse_date, plus_jours, stocker_date,
    texte_jma, Date,
};
use iam_business::theme::{rgb, Rgb, Theme};

fn jour(a: i32, m: u32, j: u32) -> Date {
    parse_date(&format!("{:02}/{:02}/{:04}", j, m, a)).unwrap()
}

#[test]
fn lecture_des_dates_saisies() {
    let d = jour(2026, 6, 1);
    assert_eq!(parse_date("01/06/2026"), Some(d));
    assert_eq!(parse_date(" 2026-06-01 "), Some(d));
    assert_eq!(parse_date("31/02/2026"), None);
    assert_eq!(parse_date("demain"), None);
    assert_eq!(date_iso("2026-06-01"), Some(d));
    assert_eq!(date_iso("01/06/2026"), None);
    assert_eq!(parse_date("01/13/2026"), None);
}

#[test]
fn numero_de_jour_de_chrono() {
    assert_eq!(jour(1, 1, 1).jour, 1);
    assert_eq!(parse_date("01/01/0001"), Some(Date { jour: 1 }));
    assert_eq!(stocker_date(Date { jour: 1 }), "0001-01-01");
}

#[test]
fn ecriture_et_relecture() {
    let d = jour(2024, 2, 29);
    assert_eq!(stocker_date(d), "2024-02-29");
    assert_eq!(texte_jma(d), "29/02/2024");
    assert_eq!(date_iso(&stocker_date(d)), Some(d));
    assert_eq!(afficher_date("2024-02-29"), "29/02/2024");
    assert_eq!(afficher_date("pas une date"), "pas une date");
}

#[test]
fn calcul_sur_les_jours() {
    let a = jour(2026, 12, 28);
    assert_eq!(plus_jours(a, 7), Some(jour(2027, 1, 4)));
    assert_eq!(ecart_jours(a, jour(2027, 1, 4)), 7);
    assert_eq!(dans_7j(a), "04/01/2027");
    assert_eq!(plus_jours(Date { jour: 95745399 }, 1), None);
}

#[test]
fn palettes_du_theme() {
    let mut t = Theme::initial();
    assert_eq!(t.bg(), rgb(12, 12, 15));
    assert_eq!(t.text(), rgb(240, 240, 245));
    t.set_theme(false);
    assert_eq!(t.bg(), rgb(242, 243, 247));
    assert_eq!(t.card(), rgb(255, 255, 255));
    assert_eq!(t.card2(), rgb(235, 236, 242));
    assert_eq!(t.border(), rgb(200, 202, 215));
    assert_eq!(t.muted(), rgb(90, 90, 110));
    t.set_theme(true);
    assert_eq!(t, Theme::initial());
}

#[test]
fn cartes_teintees() {
    let t = Theme::initial();
    let ambre = Rgb { r: 245, g: 158, b: 11 };
    assert_eq!(t.tinted_card(ambre, 0), t.card());
    assert_eq!(t.tinted_card(ambre, 255), ambre);
    // (25*215 + 245*40)/255 = 59, (25*215 + 158*40)/255 = 45, (32*215 + 11*40)/255 = 28
    assert_eq!(t.tinted_card(ambre, 40), rgb(59, 45, 28));
}

#[test]
fn date_du_jour_et_dans_sept_jours() {
    let t = jour(2026, 12, 28);
    assert_eq!(iam_business::date::aujourd_hui(t), "28/12/2026");
    assert_eq!(iam_business::date::dans_7j(t), "04/01/2027");
    let a = parse_date(&iam_business::date::aujourd_hui(t)).unwrap();
    let b = parse_date(&iam_business::date::dans_7j(t)).unwrap();
    assert_eq!(b.jour - a.jour, 7);
}

#[test]
fn dates_a_annee_signee() {
    let d = parse_date("+12000-01-05").unwrap();
    assert_eq!(stocker_date(d), "+12000-01-05");
    assert_eq!(texte_jma(d), "05/01/+12000");
    assert_eq!(parse_date(&texte_jma(d)), Some(d));
    assert_eq!(parse_date(&stocker_date(d)), Some(d));
    assert_eq!(afficher_date(&stocker_date(d)), "05/01/+12000");
    let n = parse_date("-0001-12-31").unwrap();
    assert_eq!(stocker_date(n), "-0001-12-31");
    assert_eq!(texte_jma(n), "31/12/-0001");
    assert_eq!(parse_date(&texte_jma(n)), Some(n));
    assert_eq!(parse_date(&stocker_date(n)), Some(n));
    assert_eq!(stocker_date(Date { jour: 0 }), "0000-12-31");
    assert_eq!(parse_date("0000-12-31"), Some(Date { jour: 0 }));
}

#[test]
fn texte_du_jour_sur_dix_caracteres() {
    let d = jour(2031, 11, 9);
    let t = texte_jma(d);
    assert_eq!(t.chars().count(), 10);
    assert_eq!(parse_date(&t), Some(d));
    let s = dans_7j(d);
    assert_eq!(s, "16/11/2031");
    assert_eq!(parse_date(&s), Some(jour(2031, 11, 16)));
    assert_eq!(parse_date(&stocker_date(d)), Some(d));
}
