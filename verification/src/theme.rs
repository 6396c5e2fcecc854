//! Couleurs de l'interface : palette claire ou sombre et teintes mélangées.
use vstd::prelude::*;

verus! {

/// Une couleur opaque, en rouge, vert et bleu.
#[derive(Clone, Copy, Debug, PartialEq, Eq, Structural)]
pub struct Rgb {
    pub r: u8,
    pub g: u8,
    pub b: u8,
}

/// Couleur donnée par ses trois composantes.
pub fn rgb(r: u8, g: u8, b: u8) -> (c: Rgb)
    ensures
        c == (Rgb { r, g, b }),
{
    Rgb { r, g, b }
}

/// Rouge de la marque.
pub fn rouge_iam() -> (c: Rgb)
    ensures
        c == couleur_rouge_iam(),
{
    rgb(200, 30, 40)
}

/// Vert des états favorables.
pub fn vert() -> (c: Rgb)
    ensures
        c == couleur_vert(),
{
    rgb(34, 197, 94)
}

/// Ambre des alertes.
pub fn ambre() -> (c: Rgb)
    ensures
        c == couleur_ambre(),
{
    rgb(245, 158, 11)
}

/// Bleu des boutons secondaires.
pub fn bleu() -> (c: Rgb)
    ensures
        c == couleur_bleu(),
{
    rgb(59, 130, 246)
}

/// Indigo des réservations futures.
pub fn indigo() -> (c: Rgb)
    ensures
        c == couleur_indigo(),
{
    rgb(99, 102, 241)
}

/// Blanc.
pub fn blanc() -> (c: Rgb)
    ensures
        c == couleur_blanc(),
{
    rgb(255, 255, 255)
}

/// Palette courante de l'interface.
#[derive(Clone, Copy, Debug, PartialEq, Eq, Structural)]
pub struct Theme {
    pub fond: Rgb,
    pub carte: Rgb,
    pub carte2: Rgb,
    pub bordure: Rgb,
    pub texte: Rgb,
    pub attenue: Rgb,
}

/// Palette sombre.
pub open spec fn palette_sombre() -> Theme {
    Theme {
        fond: Rgb { r: 12, g: 12, b: 15 },
        carte: Rgb { r: 25, g: 25, b: 32 },
        carte2: Rgb { r: 35, g: 35, b: 45 },
        bordure: Rgb { r: 50, g: 50, b: 65 },
        texte: Rgb { r: 240, g: 240, b: 245 },
        attenue: Rgb { r: 130, g: 130, b: 145 },
    }
}

/// Palette claire.
pub open spec fn palette_claire() -> Theme {
    Theme {
        fond: Rgb { r: 242, g: 243, b: 247 },
        carte: Rgb { r: 255, g: 255, b: 255 },
        carte2: Rgb { r: 235, g: 236, b: 242 },
        bordure: Rgb { r: 200, g: 202, b: 215 },
        texte: Rgb { r: 20, g: 20, b: 30 },
        attenue: Rgb { r: 90, g: 90, b: 110 },
    }
}

/// Mélange d'une composante de base et d'une teinte selon l'opacité `a`.
pub open spec fn melange(base: u8, t: u8, a: u8) -> int {
    (base * (255 - a) + t * a) / 255
}

proof fn lemme_melange_borne(base: u8, t: u8, a: u8)
    ensures
        0 <= base * (255 - a) + t * a <= 65025,
        0 <= melange(base, t, a) <= 255,
{
    assert(0 <= base * (255 - a) + t * a <= 65025) by (nonlinear_arith)
        requires
            base <= 255,
            t <= 255,
            a <= 255,
    ;
}

fn melanger(base: u8, t: u8, a: u8) -> (r: u8)
    ensures
        r == melange(base, t, a),
{
    proof {
        lemme_melange_borne(base, t, a);
    }
    let a16 = a as u16;
    ((base as u16 * (255 - a16) + t as u16 * a16) / 255) as u8
}

impl Theme {
    /// La palette de départ, sombre.
    pub fn initial() -> (t: Theme)
        ensures
            t == palette_sombre(),
    {
        Theme {
            fond: rgb(12, 12, 15),
            carte: rgb(25, 25, 32),
            carte2: rgb(35, 35, 45),
            bordure: rgb(50, 50, 65),
            texte: rgb(240, 240, 245),
            attenue: rgb(130, 130, 145),
        }
    }

    /// Choisit la palette sombre ou claire.
    pub fn set_theme(&mut self, dark: bool)
        ensures
            *final(self) == (if dark {
                palette_sombre()
            } else {
                palette_claire()
            }),
    {
        if dark {
            *self = Theme::initial();
        } else {
            *self =
            Theme {
                fond: rgb(242, 243, 247),
                carte: rgb(255, 255, 255),
                carte2: rgb(235, 236, 242),
                bordure: rgb(200, 202, 215),
                texte: rgb(20, 20, 30),
                attenue: rgb(90, 90, 110),
            };
        }
    }

    /// Couleur du fond.
    pub fn bg(&self) -> (c: Rgb)
        ensures
            c == self.fond,
    {
        self.fond
    }

    /// Couleur des cartes.
    pub fn card(&self) -> (c: Rgb)
        ensures
            c == self.carte,
    {
        self.carte
    }

    /// Couleur des cartes secondaires.
    pub fn card2(&self) -> (c: Rgb)
        ensures
            c == self.carte2,
    {
        self.carte2
    }

    /// Couleur des bordures.
    pub fn border(&self) -> (c: Rgb)
        ensures
            c == self.bordure,
    {
        self.bordure
    }

    /// Couleur du texte.
    pub fn text(&self) -> (c: Rgb)
        ensures
            c == self.texte,
    {
        self.texte
    }

    /// Couleur du texte atténué.
    pub fn muted(&self) -> (c: Rgb)
        ensures
            c == self.attenue,
    {
        self.attenue
    }

    /// Couleur de carte teintée par `tint` avec l'opacité `alpha`.
    pub fn tinted_card(&self, tint: Rgb, alpha: u8) -> (c: Rgb)
        ensures
            c.r == melange(self.carte.r, tint.r, alpha),
            c.g == melange(self.carte.g, tint.g, alpha),
            c.b == melange(self.carte.b, tint.b, alpha),
    {
        Rgb {
            r: melanger(self.carte.r, tint.r, alpha),
            g: melanger(self.carte.g, tint.g, alpha),
            b: melanger(self.carte.b, tint.b, alpha),
        }
    }
}

/// Composantes de la couleur rendue par `rouge_iam`.
pub open spec fn couleur_rouge_iam() -> Rgb {
    Rgb { r: 200, g: 30, b: 40 }
}

/// Composantes de la couleur rendue par `vert`.
pub open spec fn couleur_vert() -> Rgb {
    Rgb { r: 34, g: 197, b: 94 }
}

/// Composantes de la couleur rendue par `ambre`.
pub open spec fn couleur_ambre() -> Rgb {
    Rgb { r: 245, g: 158, b: 11 }
}

/// Composantes de la couleur rendue par `bleu`.
pub open spec fn couleur_bleu() -> Rgb {
    Rgb { r: 59, g: 130, b: 246 }
}

/// Composantes de la couleur rendue par `indigo`.
pub open spec fn couleur_indigo() -> Rgb {
    Rgb { r: 99, g: 102, b: 241 }
}

/// Composantes de la couleur rendue par `blanc`.
pub open spec fn couleur_blanc() -> Rgb {
    Rgb { r: 255, g: 255, b: 255 }
}

} // verus!
