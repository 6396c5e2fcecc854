# iam_business

Gestion d'une agence de location de voitures : parc, contrats, disponibilités,
impayés, ventes de véhicules, maintenance et caisse.

- `src/` : la bibliothèque, vérifiée par Verus. Chaque fonction publique porte
  un contrat (`requires` / `ensures`) sur un modèle mathématique des données ;
  les propriétés qui lient plusieurs opérations sont des fonctions de preuve
  publiques (`lois.rs`, `relecture.rs`, `proprietes.rs`). Les dates passent
  par `chrono`, derrière quelques fonctions de confiance de `date.rs` ;
  `texte.rs` appelle `str::to_lowercase` de la même façon.
- `app/` : l'application graphique (`eframe`), la lecture et l'écriture des
  fichiers CSV (`csv`, `serde`) et l'horloge. Elle confie toute décision à la
  bibliothèque.
- `tests/` : des tests sur valeurs concrètes de la bibliothèque.

Les montants sont tenus en centimes (`i64`) ; les sommes se font en `i128`.
Un montant saisi se lit comme un texte décimal (signe facultatif, point
décimal facultatif) : les chiffres au-delà du centime sont ignorés, et les
écritures à exposant (`1e3`) ou `inf` / `nan` sont refusées.

La date du jour est lue sur l'horloge par `app/` et passée aux fonctions de la
bibliothèque qui en dépendent.
