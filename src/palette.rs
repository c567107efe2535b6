use vstd::prelude::*;

verus! {

/// The shades a palette slot can hold; `Debug` marks pixels drawn for inspection.
#[derive(Debug, Clone, Copy, PartialEq, Eq, Structural)]
pub enum Colors {
    White,
    LightGray,
    DarkGray,
    Black,
    Debug,
}

/// Four colour slots, indexed by a tile's 2-bit colour index.
#[derive(Clone, Copy)]
pub struct Palette {
    pub colors: [Colors; 4],
}

impl Palette {
    /// The default greyscale palette: white, light grey, dark grey, black.
    pub fn new() -> (r: Palette)
        ensures
            r.colors@ == seq![Colors::White, Colors::LightGray, Colors::DarkGray, Colors::Black],
    {
        let r = Palette { colors: [Colors::White, Colors::LightGray, Colors::DarkGray, Colors::Black] };
        assert(r.colors@ =~= seq![Colors::White, Colors::LightGray, Colors::DarkGray, Colors::Black]);
        r
    }

    /// Sets slot `index`; an index outside 0..4 changes nothing.
    pub fn set_color(&mut self, index: usize, color: Colors)
        ensures
            final(self).colors@ == (if index < 4 { old(self).colors@.update(index as int, color) } else { old(self).colors@ }),
    {
        if index < 4 {
            self.colors[index] = color;
        }
    }

    /// The colour of a pixel value; only its two low bits count.
    pub fn get_color(&self, value: u8) -> (r: Colors)
        ensures
            r == self.colors@[value as int % 4],
    {
        self.colors[(value % 4) as usize]
    }

    pub fn from_colors(color_idx_0: Colors, color_idx_1: Colors, color_idx_2: Colors, color_idx_3: Colors) -> (r: Palette)
        ensures
            r.colors@ == seq![color_idx_0, color_idx_1, color_idx_2, color_idx_3],
    {
        let mut palette: Palette = Palette::new();
        palette.set_color(0, color_idx_0);
        palette.set_color(1, color_idx_1);
        palette.set_color(2, color_idx_2);
        palette.set_color(3, color_idx_3);
        assert(palette.colors@ =~= seq![color_idx_0, color_idx_1, color_idx_2, color_idx_3]);
        palette
    }
}

} // verus!
