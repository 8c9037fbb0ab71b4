//! Fill colors for the histogram columns.

use vstd::prelude::*;

verus! {

/// The color for column `index` of the palette.
pub open spec fn color_at(index: int) -> Seq<char> {
    let k = index % 14;
    if k == 0 {
        "#FF0000"@
    } else if k == 1 {
        "#00FF00"@
    } else if k == 2 {
        "#0000FF"@
    } else if k == 3 {
        "#FFFF00"@
    } else if k == 4 {
        "#00FFFF"@
    } else if k == 5 {
        "#FF00FF"@
    } else if k == 6 {
        "#C0C0C0"@
    } else if k == 7 {
        "#808080"@
    } else if k == 8 {
        "#800000"@
    } else if k == 9 {
        "#808000"@
    } else if k == 10 {
        "#008000"@
    } else if k == 11 {
        "#800080"@
    } else if k == 12 {
        "#008080"@
    } else {
        "#000080"@
    }
}

/// The gray for column `index`: sixteen even steps from near-black, each
/// channel holding `15 + (index % 16) * 14` written twice in hex.
pub open spec fn gray_at(index: int) -> Seq<char> {
    let k = index % 16;
    if k == 0 {
        "#0f0f0f"@
    } else if k == 1 {
        "#1d1d1d"@
    } else if k == 2 {
        "#2b2b2b"@
    } else if k == 3 {
        "#393939"@
    } else if k == 4 {
        "#474747"@
    } else if k == 5 {
        "#555555"@
    } else if k == 6 {
        "#636363"@
    } else if k == 7 {
        "#717171"@
    } else if k == 8 {
        "#7f7f7f"@
    } else if k == 9 {
        "#8d8d8d"@
    } else if k == 10 {
        "#9b9b9b"@
    } else if k == 11 {
        "#a9a9a9"@
    } else if k == 12 {
        "#b7b7b7"@
    } else if k == 13 {
        "#c5c5c5"@
    } else if k == 14 {
        "#d3d3d3"@
    } else {
        "#e1e1e1"@
    }
}

/// How histogram columns are colored: a repeating palette, or a grayscale
/// ramp that avoids jarring flashes at full frame rate.
#[derive(Clone, Copy)]
pub enum FillStyle {
    Color,
    Grayscale,
}

impl FillStyle {
    /// The fill color for the column at `index`.
    pub fn get(self, index: usize) -> (r: String)
        ensures
            self is Color ==> r@ == color_at(index as int),
            self is Grayscale ==> r@ == gray_at(index as int),
    {
        match self {
            FillStyle::Color => {
                let k = index % 14;
                let s: &str = if k == 0 {
                    "#FF0000"
                } else if k == 1 {
                    "#00FF00"
                } else if k == 2 {
                    "#0000FF"
                } else if k == 3 {
                    "#FFFF00"
                } else if k == 4 {
                    "#00FFFF"
                } else if k == 5 {
                    "#FF00FF"
                } else if k == 6 {
                    "#C0C0C0"
                } else if k == 7 {
                    "#808080"
                } else if k == 8 {
                    "#800000"
                } else if k == 9 {
                    "#808000"
                } else if k == 10 {
                    "#008000"
                } else if k == 11 {
                    "#800080"
                } else if k == 12 {
                    "#008080"
                } else {
                    "#000080"
                };
                s.to_owned()
            },
            FillStyle::Grayscale => {
                let k = index % 16;
                let s: &str = if k == 0 {
                    "#0f0f0f"
                } else if k == 1 {
                    "#1d1d1d"
                } else if k == 2 {
                    "#2b2b2b"
                } else if k == 3 {
                    "#393939"
                } else if k == 4 {
                    "#474747"
                } else if k == 5 {
                    "#555555"
                } else if k == 6 {
                    "#636363"
                } else if k == 7 {
                    "#717171"
                } else if k == 8 {
                    "#7f7f7f"
                } else if k == 9 {
                    "#8d8d8d"
                } else if k == 10 {
                    "#9b9b9b"
                } else if k == 11 {
                    "#a9a9a9"
                } else if k == 12 {
                    "#b7b7b7"
                } else if k == 13 {
                    "#c5c5c5"
                } else if k == 14 {
                    "#d3d3d3"
                } else {
                    "#e1e1e1"
                };
                s.to_owned()
            },
        }
    }
}

} // verus!
