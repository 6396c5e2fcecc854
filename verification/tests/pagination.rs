use iam_business::pagination::{
    boutons_liste, boutons_pagination, bornes_page, nb_pages, page_corrigee, page_precedente,
    page_suivante,
};

#[test]
fn nombre_de_pages() {
    assert_eq!(nb_pages(0, 10), 0);
    assert_eq!(nb_pages(10, 10), 1);
    assert_eq!(nb_pages(11, 10), 2);
    assert_eq!(nb_pages(usize::MAX, 1), usize::MAX);
}

#[test]
fn page_ramenee_a_la_premiere() {
    assert_eq!(page_corrigee(3, 25, 10), 0);
    assert_eq!(page_corrigee(2, 25, 10), 2);
    assert_eq!(page_corrigee(0, 0, 5), 0);
}

#[test]
fn bornes_des_pages() {
    assert_eq!(bornes_page(0, 25, 10), (0, 10));
    assert_eq!(bornes_page(2, 25, 10), (20, 25));
    assert_eq!(bornes_page(5, 25, 10), (25, 25));
    assert_eq!(bornes_page(usize::MAX, 3, 2), (3, 3));
}

#[test]
fn pages_couvrant_la_liste() {
    let (n, par) = (23usize, 5usize);
    let mut vus = 0;
    for p in 0..nb_pages(n, par) {
        let (d, f) = bornes_page(p, n, par);
        assert_eq!(d, vus);
        vus = f;
    }
    assert_eq!(vus, n);
}

#[test]
fn pages_voisines() {
    assert_eq!(page_precedente(0), 0);
    assert_eq!(page_precedente(3), 2);
    assert_eq!(page_suivante(1, 3), 2);
    assert_eq!(page_suivante(2, 3), 2);
}

#[test]
fn barre_de_pages() {
    assert!(boutons_pagination(0, 10, 10).is_empty());
    assert_eq!(boutons_pagination(0, 30, 10), vec![Some(0), Some(1), Some(2)]);
    assert_eq!(
        boutons_pagination(6, 200, 10),
        vec![Some(0), Some(1), Some(2), None, Some(5), Some(6), Some(7), None]
    );
    assert_eq!(
        boutons_pagination(18, 200, 10),
        vec![Some(0), Some(1), Some(2), None, Some(17), None]
    );
    assert_eq!(boutons_pagination(4, 200, 10).len(), 20);
}

#[test]
fn barre_des_contrats() {
    assert_eq!(boutons_liste(2), vec![Some(0), Some(1)]);
    assert_eq!(boutons_liste(12).len(), 10);
    assert_eq!(boutons_liste(12)[8], None);
    assert_eq!(boutons_liste(12)[9], Some(11));
}
