use iam_business::texte::{
    cle_de, contient, correspond_texte, egal, est_blanc_texte, est_espace, inferieur,
    remplacer_car, retirer_motif, rogner,
};
use iam_business::nombre::{entier_en_texte, lire_i32, lire_u32, naturel_en_texte};
use iam_business::montant::{lire_montant, texte_arrondi, texte_da, texte_decimal};

#[test]
fn rogner_retire_les_espaces_unicode() {
    assert_eq!(rogner("  Clio \t"), "Clio");
    assert_eq!(rogner("\u{00A0}IAM\u{3000}"), "IAM");
    assert_eq!(rogner("   "), "");
    assert_eq!(rogner("a b"), "a b");
    assert!(est_blanc_texte(" \n "));
    assert!(!est_blanc_texte(" x "));
}

#[test]
fn espaces_reconnus() {
    assert!(est_espace(' '));
    assert!(est_espace('\u{2009}'));
    assert!(!est_espace('a'));
    assert!(!est_espace('\u{200B}'));
}

#[test]
fn egalite_et_recherche() {
    assert!(egal("Actif", "Actif"));
    assert!(!egal("Actif", "actif"));
    assert!(contient("toyota corolla", "coro"));
    assert!(contient("abc", ""));
    assert!(!contient("ab", "abc"));
    assert!(!contient("abc", "abd"));
}

#[test]
fn minuscules_et_correspondance() {
    assert_eq!(cle_de(" ÉTÉ Clio "), "été clio");
    assert!(correspond_texte("Renault CLIO", "clio"));
    assert!(!correspond_texte("Renault", "CLIO"));
    assert_eq!(cle_de("  AB-12 "), "ab-12");
}

#[test]
fn ordre_des_textes() {
    assert!(inferieur("2024-01-02", "2024-01-10"));
    assert!(!inferieur("b", "a"));
    assert!(inferieur("ab", "abc"));
    assert!(!inferieur("abc", "abc"));
    // transitivité sur un exemple
    assert!(inferieur("a", "b") && inferieur("b", "c") && inferieur("a", "c"));
}

#[test]
fn remplacements() {
    assert_eq!(retirer_motif("3 000 DA", " DA"), "3 000");
    assert_eq!(retirer_motif("aaaa", "aa"), "");
    assert_eq!(remplacer_car("1,5", ',', "."), "1.5");
    assert_eq!(remplacer_car("1 2 3", ' ', ""), "123");
}

#[test]
fn lecture_des_entiers() {
    assert_eq!(lire_u32("2024"), Some(2024));
    assert_eq!(lire_u32("+7"), Some(7));
    assert_eq!(lire_u32("-7"), None);
    assert_eq!(lire_u32(""), None);
    assert_eq!(lire_u32("4294967296"), None);
    assert_eq!(lire_i32("-2147483648"), Some(-2147483648));
    assert_eq!(lire_i32("2147483648"), None);
    assert_eq!(lire_i32("12a"), None);
}

#[test]
fn ecriture_des_entiers() {
    assert_eq!(naturel_en_texte(0), "0");
    assert_eq!(naturel_en_texte(1234567), "1234567");
    assert_eq!(entier_en_texte(-42), "-42");
    assert_eq!(entier_en_texte(2026), "2026");
}

#[test]
fn relecture_d_un_entier_ecrit() {
    for n in [0u32, 9, 10, 2026, 4294967295] {
        assert_eq!(lire_u32(&naturel_en_texte(n as u128)), Some(n));
    }
}

#[test]
fn lecture_des_montants() {
    assert_eq!(lire_montant("3500"), Some(350000));
    assert_eq!(lire_montant("3500.5"), Some(350050));
    assert_eq!(lire_montant("0.057"), Some(5));
    assert_eq!(lire_montant("-12.3"), Some(-1230));
    assert_eq!(lire_montant(".5"), Some(50));
    assert_eq!(lire_montant("5."), Some(500));
    assert_eq!(lire_montant("."), None);
    assert_eq!(lire_montant("1e3"), None);
    assert_eq!(lire_montant("abc"), None);
    assert_eq!(lire_montant(""), None);
}

#[test]
fn arrondi_a_l_unite() {
    assert_eq!(texte_arrondi(350049), "3500");
    assert_eq!(texte_arrondi(350051), "3501");
    // demi vers le pair, comme {:.0}
    assert_eq!(texte_arrondi(250), "2");
    assert_eq!(texte_arrondi(350), "4");
    assert_eq!(texte_arrondi(-150), "-2");
    assert_eq!(texte_da(700000), "7000 DA");
}

#[test]
fn ecriture_decimale_la_plus_courte() {
    assert_eq!(texte_decimal(350000), "3500");
    assert_eq!(texte_decimal(350050), "3500.5");
    assert_eq!(texte_decimal(5), "0.05");
    assert_eq!(texte_decimal(-1230), "-12.3");
    assert_eq!(texte_decimal(i64::MIN), "-92233720368547758.08");
}

#[test]
fn relecture_d_un_montant_ecrit() {
    for v in [0i64, 5, 50, 350050, -1230, i64::MAX, -i64::MAX] {
        assert_eq!(lire_montant(&rogner(&texte_decimal(v))), Some(v));
    }
}
