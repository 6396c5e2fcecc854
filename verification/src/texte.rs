//! Opérations sur le texte : espaces, découpe, recherche et comparaison.
use vstd::prelude::*;
use vstd::string::*;

verus! {

/// Propriété Unicode `White_Space` (fichier PropList.txt de l'UCD).
pub open spec fn est_espace_spec(c: char) -> bool {
    let n = c as int;
    ||| 0x09 <= n <= 0x0D
    ||| n == 0x20
    ||| n == 0x85
    ||| n == 0xA0
    ||| n == 0x1680
    ||| 0x2000 <= n <= 0x200A
    ||| n == 0x2028
    ||| n == 0x2029
    ||| n == 0x202F
    ||| n == 0x205F
    ||| n == 0x3000
}

/// Vrai pour un caractère d'espacement Unicode.
pub fn est_espace(c: char) -> (r: bool)
    ensures
        r == est_espace_spec(c),
{
    let n = c as u32;
    (0x09 <= n && n <= 0x0D) || n == 0x20 || n == 0x85 || n == 0xA0 || n == 0x1680 || (0x2000
        <= n && n <= 0x200A) || n == 0x2028 || n == 0x2029 || n == 0x202F || n == 0x205F || n
        == 0x3000
}

/// Premier indice à partir de `i` qui n'est pas un espace (ou la longueur).
pub open spec fn premier_non_espace(s: Seq<char>, i: int) -> int
    decreases s.len() - i,
{
    if i >= s.len() || i < 0 {
        s.len() as int
    } else if est_espace_spec(s[i]) {
        premier_non_espace(s, i + 1)
    } else {
        i
    }
}

/// Fin (exclue) du texte une fois retirés les espaces situés avant `j`.
pub open spec fn fin_non_espace(s: Seq<char>, j: int) -> int
    decreases j,
{
    if j <= 0 || j > s.len() {
        0
    } else if est_espace_spec(s[j - 1]) {
        fin_non_espace(s, j - 1)
    } else {
        j
    }
}

/// Le texte sans ses espaces de tête et de queue.
pub open spec fn rogne(s: Seq<char>) -> Seq<char> {
    let a = premier_non_espace(s, 0);
    let b = fin_non_espace(s, s.len() as int);
    if a < b {
        s.subrange(a, b)
    } else {
        Seq::empty()
    }
}

/// Le texte est vide une fois rogné.
pub open spec fn est_blanc(s: Seq<char>) -> bool {
    rogne(s).len() == 0
}

proof fn lemme_premier_borne(s: Seq<char>, i: int)
    requires
        0 <= i <= s.len(),
    ensures
        i <= premier_non_espace(s, i) <= s.len(),
        premier_non_espace(s, i) < s.len() ==> !est_espace_spec(s[premier_non_espace(s, i)]),
        forall|k: int| i <= k < premier_non_espace(s, i) ==> est_espace_spec(s[k]),
    decreases s.len() - i,
{
    if i < s.len() && est_espace_spec(s[i]) {
        lemme_premier_borne(s, i + 1);
    }
}

proof fn lemme_fin_borne(s: Seq<char>, j: int)
    requires
        0 <= j <= s.len(),
    ensures
        0 <= fin_non_espace(s, j) <= j,
        fin_non_espace(s, j) > 0 ==> !est_espace_spec(s[fin_non_espace(s, j) - 1]),
        forall|k: int| fin_non_espace(s, j) <= k < j ==> est_espace_spec(s[k]),
    decreases j,
{
    if j > 0 && est_espace_spec(s[j - 1]) {
        lemme_fin_borne(s, j - 1);
    }
}

/// Un texte sans espace au début ni à la fin est laissé tel quel par `rogne`.
pub proof fn lemme_rogne_sans_espace(s: Seq<char>)
    requires
        s.len() > 0,
        !est_espace_spec(s[0]),
        !est_espace_spec(s.last()),
    ensures
        rogne(s) == s,
{
    assert(premier_non_espace(s, 0) == 0);
    assert(fin_non_espace(s, s.len() as int) == s.len());
    assert(s.subrange(0, s.len() as int) =~= s);
}

/// Rogner un texte déjà rogné ne le change plus.
pub proof fn lemme_rogne_rogne(s: Seq<char>)
    ensures
        rogne(rogne(s)) == rogne(s),
{
    let a = premier_non_espace(s, 0);
    let b = fin_non_espace(s, s.len() as int);
    lemme_premier_borne(s, 0);
    lemme_fin_borne(s, s.len() as int);
    if a < b {
        let r = s.subrange(a, b);
        assert(r[0] == s[a]);
        assert(r.last() == s[b - 1]);
        lemme_rogne_sans_espace(r);
    } else {
        let e = Seq::<char>::empty();
        assert(premier_non_espace(e, 0) == 0);
        assert(fin_non_espace(e, 0) == 0);
    }
}

/// Copie d'un texte.
pub fn copie_texte(s: &str) -> (r: String)
    ensures
        r@ == s@,
{
    String::from_str(s)
}

/// Retire les espaces de tête et de queue.
pub fn rogner(s: &str) -> (r: String)
    ensures
        r@ == rogne(s@),
{
    let n = s.unicode_len();
    let mut i: usize = 0;
    while i < n && est_espace(s.get_char(i))
        invariant
            n == s@.len(),
            0 <= i <= n,
            premier_non_espace(s@, 0) == premier_non_espace(s@, i as int),
        decreases n - i,
    {
        i = i + 1;
    }
    let mut j: usize = n;
    while j > 0 && est_espace(s.get_char(j - 1))
        invariant
            n == s@.len(),
            0 <= j <= n,
            fin_non_espace(s@, n as int) == fin_non_espace(s@, j as int),
        decreases j,
    {
        j = j - 1;
    }
    if i < j {
        String::from_str(s.substring_char(i, j))
    } else {
        String::new()
    }
}

/// Vrai si le texte ne contient que des espaces.
pub fn est_blanc_texte(s: &str) -> (r: bool)
    ensures
        r == est_blanc(s@),
{
    let t = rogner(s);
    t.as_str().unicode_len() == 0
}

/// Égalité de deux textes, caractère par caractère.
pub fn egal(a: &str, b: &str) -> (r: bool)
    ensures
        r == (a@ == b@),
{
    let n = a.unicode_len();
    if n != b.unicode_len() {
        return false;
    }
    let mut i: usize = 0;
    while i < n
        invariant
            n == a@.len(),
            n == b@.len(),
            i <= n,
            forall|k: int| 0 <= k < i ==> a@[k] == b@[k],
        decreases n - i,
    {
        if a.get_char(i) != b.get_char(i) {
            return false;
        }
        i = i + 1;
    }
    assert(a@ =~= b@);
    true
}

/// `motif` apparaît dans `s` à la position `i`.
pub open spec fn apparait_en(s: Seq<char>, motif: Seq<char>, i: int) -> bool {
    0 <= i && i + motif.len() <= s.len() && s.subrange(i, i + motif.len()) == motif
}

/// `motif` est une sous-chaîne de `s`.
pub open spec fn contient_spec(s: Seq<char>, motif: Seq<char>) -> bool {
    exists|i: int| apparait_en(s, motif, i)
}

/// Recherche d'une sous-chaîne.
pub fn contient(s: &str, motif: &str) -> (r: bool)
    ensures
        r == contient_spec(s@, motif@),
{
    let n = s.unicode_len();
    let m = motif.unicode_len();
    if m > n {
        assert forall|i: int| !apparait_en(s@, motif@, i) by {}
        return false;
    }
    if m == 0 {
        assert(s@.subrange(0, 0) =~= motif@);
        assert(apparait_en(s@, motif@, 0));
        return true;
    }
    let mut i: usize = 0;
    while i <= n - m
        invariant
            n == s@.len(),
            m == motif@.len(),
            0 < m <= n,
            i <= n - m + 1,
            forall|k: int| 0 <= k < i ==> !apparait_en(s@, motif@, k),
        decreases n - m + 1 - i,
    {
        let mut j: usize = 0;
        let mut ok = true;
        while j < m
            invariant
                n == s@.len(),
                m == motif@.len(),
                i + m <= n,
                j <= m,
                ok ==> forall|k: int| 0 <= k < j ==> s@[i + k] == motif@[k],
                !ok ==> !apparait_en(s@, motif@, i as int),
            decreases m - j,
        {
            if ok && s.get_char(i + j) != motif.get_char(j) {
                ok = false;
                assert(s@.subrange(i as int, i + m)[j as int] != motif@[j as int]);
            }
            j = j + 1;
        }
        if ok {
            assert(s@.subrange(i as int, i + m) =~= motif@);
            assert(apparait_en(s@, motif@, i as int));
            return true;
        }
        i = i + 1;
    }
    assert forall|k: int| !apparait_en(s@, motif@, k) by {
        if 0 <= k && k + m <= n {
            assert(k < i);
        }
    }
    false
}

/// Minuscules Unicode d'un texte, au sens de `str::to_lowercase`.
pub uninterp spec fn minuscules(s: Seq<char>) -> Seq<char>;

/// Appelle `str::to_lowercase` de la bibliothèque standard : le résultat est,
/// par définition, la transformation en minuscules nommée `minuscules`, qui ne
/// dépend que du texte.
#[verifier::external_body]
pub(crate) fn en_minuscules(s: &str) -> (r: String)
    ensures
        r@ == minuscules(s@),
{
    s.to_lowercase()
}

} // verus!

verus! {

/// Le champ, mis en minuscules, contient le motif (déjà en minuscules).
pub open spec fn correspond(champ: Seq<char>, q: Seq<char>) -> bool {
    contient_spec(minuscules(champ), q)
}

/// Recherche insensible à la casse d'un motif déjà mis en minuscules.
pub fn correspond_texte(champ: &str, q: &str) -> (r: bool)
    ensures
        r == correspond(champ@, q@),
{
    let m = en_minuscules(champ);
    contient(m.as_str(), q)
}

/// Clé de comparaison d'une plaque ou d'un numéro : rognée puis en minuscules.
pub open spec fn cle_texte(s: Seq<char>) -> Seq<char> {
    minuscules(rogne(s))
}

/// Clé de comparaison d'un texte.
pub fn cle_de(s: &str) -> (r: String)
    ensures
        r@ == cle_texte(s@),
{
    let t = rogner(s);
    en_minuscules(t.as_str())
}

} // verus!

verus! {

/// Ordre lexicographique strict des textes à partir de la position `i`
/// (par points de code, comme l'ordre des octets UTF-8 de `String`).
pub open spec fn lex_inf_depuis(a: Seq<char>, b: Seq<char>, i: int) -> bool
    decreases a.len() - i,
{
    if i < 0 || i >= a.len() {
        i >= 0 && i < b.len()
    } else if i >= b.len() {
        false
    } else if a[i] != b[i] {
        (a[i] as int) < (b[i] as int)
    } else {
        lex_inf_depuis(a, b, i + 1)
    }
}

/// `a` précède strictement `b` dans l'ordre lexicographique.
pub open spec fn lex_inf(a: Seq<char>, b: Seq<char>) -> bool {
    lex_inf_depuis(a, b, 0)
}

/// Comparaison lexicographique stricte de deux textes.
pub fn inferieur(a: &str, b: &str) -> (r: bool)
    ensures
        r == lex_inf(a@, b@),
{
    let na = a.unicode_len();
    let nb = b.unicode_len();
    let mut i: usize = 0;
    while i < na && i < nb && a.get_char(i) == b.get_char(i)
        invariant
            na == a@.len(),
            nb == b@.len(),
            0 <= i <= na,
            i <= nb,
            lex_inf(a@, b@) == lex_inf_depuis(a@, b@, i as int),
        decreases na - i,
    {
        i = i + 1;
    }
    if i == na {
        i < nb
    } else if i == nb {
        false
    } else {
        (a.get_char(i) as u32) < (b.get_char(i) as u32)
    }
}

/// Le texte privé de toutes les occurrences de `m`, cherchées de gauche à
/// droite sans chevauchement (`str::replace(m, "")`).
pub open spec fn sans_motif(s: Seq<char>, m: Seq<char>) -> Seq<char>
    decreases s.len(),
{
    if s.len() == 0 {
        s
    } else if m.len() > 0 && s.len() >= m.len() && s.take(m.len() as int) == m {
        sans_motif(s.skip(m.len() as int), m)
    } else {
        seq![s[0]] + sans_motif(s.skip(1), m)
    }
}

/// Retire toutes les occurrences de `m` (non vide).
pub fn retirer_motif(s: &str, m: &str) -> (r: String)
    ensures
        r@ == sans_motif(s@, m@),
{
    let n = s.unicode_len();
    let lm = m.unicode_len();
    let mut r = String::new();
    let mut i: usize = 0;
    assert(s@.skip(0) =~= s@);
    while i < n
        invariant
            n == s@.len(),
            lm == m@.len(),
            0 <= i <= n,
            r@ + sans_motif(s@.skip(i as int), m@) == sans_motif(s@, m@),
        decreases n - i,
    {
        let ghost reste = s@.skip(i as int);
        let mut trouve = lm > 0 && n - i >= lm;
        if trouve {
            let mut j: usize = 0;
            while j < lm
                invariant
                    n == s@.len(),
                    lm == m@.len(),
                    i + lm <= n,
                    0 <= j <= lm,
                    reste == s@.skip(i as int),
                    trouve ==> forall|k: int| 0 <= k < j ==> reste[k] == m@[k],
                    !trouve ==> reste.take(lm as int) != m@,
                decreases lm - j,
            {
                if trouve && s.get_char(i + j) != m.get_char(j) {
                    trouve = false;
                    assert(reste.take(lm as int)[j as int] != m@[j as int]);
                }
                j = j + 1;
            }
            if trouve {
                assert(reste.take(lm as int) =~= m@);
            }
        }
        if trouve {
            assert(reste.skip(lm as int) =~= s@.skip(i + lm));
            i = i + lm;
        } else {
            let c = s.substring_char(i, i + 1);
            assert(c@ =~= seq![reste[0]]);
            assert(reste.skip(1) =~= s@.skip(i + 1));
            let ghost avant = r@;
            r.append(c);
            assert(r@ + sans_motif(s@.skip(i + 1), m@) =~= avant + (seq![reste[0]] + sans_motif(
                reste.skip(1),
                m@,
            )));
            i = i + 1;
        }
    }
    assert(s@.skip(n as int) =~= Seq::<char>::empty());
    assert(r@ + sans_motif(s@.skip(n as int), m@) =~= r@);
    r
}

/// Le texte où chaque caractère `de` est remplacé par le texte `par`
/// (`str::replace` d'un caractère).
pub open spec fn remplace_car(s: Seq<char>, de: char, par: Seq<char>) -> Seq<char>
    decreases s.len(),
{
    if s.len() == 0 {
        s
    } else {
        (if s[0] == de {
            par
        } else {
            seq![s[0]]
        }) + remplace_car(s.skip(1), de, par)
    }
}

/// Remplace chaque caractère `de` par le texte `par`.
pub fn remplacer_car(s: &str, de: char, par: &str) -> (r: String)
    ensures
        r@ == remplace_car(s@, de, par@),
{
    let n = s.unicode_len();
    let mut r = String::new();
    let mut i: usize = 0;
    assert(s@.skip(0) =~= s@);
    while i < n
        invariant
            n == s@.len(),
            0 <= i <= n,
            r@ + remplace_car(s@.skip(i as int), de, par@) == remplace_car(s@, de, par@),
        decreases n - i,
    {
        let ghost reste = s@.skip(i as int);
        assert(reste.skip(1) =~= s@.skip(i + 1));
        let ghost avant = r@;
        let c = s.get_char(i);
        if c == de {
            r.append(par);
        } else {
            let t = s.substring_char(i, i + 1);
            assert(t@ =~= seq![reste[0]]);
            r.append(t);
        }
        assert(r@ + remplace_car(s@.skip(i + 1), de, par@) =~= avant + remplace_car(reste, de, par@));
        i = i + 1;
    }
    assert(s@.skip(n as int) =~= Seq::<char>::empty());
    assert(r@ + remplace_car(s@.skip(n as int), de, par@) =~= r@);
    r
}

} // verus!
