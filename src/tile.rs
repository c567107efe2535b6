use vstd::prelude::*;

verus! {

/// The 2-bit colour index of pixel (`row`, `col`) of the tile encoded by `bytes`:
/// bit `7 - col` of the high-plane byte, then the same bit of the low-plane byte.
pub open spec fn tile_pixel(bytes: Seq<u8>, row: int, col: int) -> u8 {
    let bit = (7 - col) as u8;
    (((bytes[2 * row + 1] >> bit) & 1) << 1u8) | ((bytes[2 * row] >> bit) & 1)
}

/// The byte of one bit plane (0 = low, 1 = high) of a row of eight colour indices,
/// leftmost pixel in bit 7.
pub open spec fn plane_byte(line: Seq<u8>, plane: u8) -> u8 {
    (((line[0] >> plane) & 1) << 7u8) | (((line[1] >> plane) & 1) << 6u8) | (((line[2] >> plane) & 1)
        << 5u8) | (((line[3] >> plane) & 1) << 4u8) | (((line[4] >> plane) & 1) << 3u8) | (((line[5]
        >> plane) & 1) << 2u8) | (((line[6] >> plane) & 1) << 1u8) | ((line[7] >> plane) & 1)
}

/// Encoding the two planes of a decoded row gives back the row's two bytes.
proof fn lemma_row_round_trip(lo: u8, hi: u8)
    ensures
        ({
            let line = seq![
                (((hi >> 7u8) & 1) << 1u8) | ((lo >> 7u8) & 1),
                (((hi >> 6u8) & 1) << 1u8) | ((lo >> 6u8) & 1),
                (((hi >> 5u8) & 1) << 1u8) | ((lo >> 5u8) & 1),
                (((hi >> 4u8) & 1) << 1u8) | ((lo >> 4u8) & 1),
                (((hi >> 3u8) & 1) << 1u8) | ((lo >> 3u8) & 1),
                (((hi >> 2u8) & 1) << 1u8) | ((lo >> 2u8) & 1),
                (((hi >> 1u8) & 1) << 1u8) | ((lo >> 1u8) & 1),
                (((hi >> 0u8) & 1) << 1u8) | ((lo >> 0u8) & 1),
            ];
            plane_byte(line, 0) == lo && plane_byte(line, 1) == hi
        }),
{
    let p0 = (((hi >> 7u8) & 1) << 1u8) | ((lo >> 7u8) & 1);
    let p1 = (((hi >> 6u8) & 1) << 1u8) | ((lo >> 6u8) & 1);
    let p2 = (((hi >> 5u8) & 1) << 1u8) | ((lo >> 5u8) & 1);
    let p3 = (((hi >> 4u8) & 1) << 1u8) | ((lo >> 4u8) & 1);
    let p4 = (((hi >> 3u8) & 1) << 1u8) | ((lo >> 3u8) & 1);
    let p5 = (((hi >> 2u8) & 1) << 1u8) | ((lo >> 2u8) & 1);
    let p6 = (((hi >> 1u8) & 1) << 1u8) | ((lo >> 1u8) & 1);
    let p7 = (((hi >> 0u8) & 1) << 1u8) | ((lo >> 0u8) & 1);
    assert(((((p0 >> 0u8) & 1) << 7u8) | (((p1 >> 0u8) & 1) << 6u8) | (((p2 >> 0u8) & 1) << 5u8) | (((p3
        >> 0u8) & 1) << 4u8) | (((p4 >> 0u8) & 1) << 3u8) | (((p5 >> 0u8) & 1) << 2u8) | (((p6 >> 0u8)
        & 1) << 1u8) | ((p7 >> 0u8) & 1)) == lo) by (bit_vector)
        requires
            p0 == (((hi >> 7u8) & 1) << 1u8) | ((lo >> 7u8) & 1),
            p1 == (((hi >> 6u8) & 1) << 1u8) | ((lo >> 6u8) & 1),
            p2 == (((hi >> 5u8) & 1) << 1u8) | ((lo >> 5u8) & 1),
            p3 == (((hi >> 4u8) & 1) << 1u8) | ((lo >> 4u8) & 1),
            p4 == (((hi >> 3u8) & 1) << 1u8) | ((lo >> 3u8) & 1),
            p5 == (((hi >> 2u8) & 1) << 1u8) | ((lo >> 2u8) & 1),
            p6 == (((hi >> 1u8) & 1) << 1u8) | ((lo >> 1u8) & 1),
            p7 == (((hi >> 0u8) & 1) << 1u8) | ((lo >> 0u8) & 1),
    ;
    assert(((((p0 >> 1u8) & 1) << 7u8) | (((p1 >> 1u8) & 1) << 6u8) | (((p2 >> 1u8) & 1) << 5u8) | (((p3
        >> 1u8) & 1) << 4u8) | (((p4 >> 1u8) & 1) << 3u8) | (((p5 >> 1u8) & 1) << 2u8) | (((p6 >> 1u8)
        & 1) << 1u8) | ((p7 >> 1u8) & 1)) == hi) by (bit_vector)
        requires
            p0 == (((hi >> 7u8) & 1) << 1u8) | ((lo >> 7u8) & 1),
            p1 == (((hi >> 6u8) & 1) << 1u8) | ((lo >> 6u8) & 1),
            p2 == (((hi >> 5u8) & 1) << 1u8) | ((lo >> 5u8) & 1),
            p3 == (((hi >> 4u8) & 1) << 1u8) | ((lo >> 4u8) & 1),
            p4 == (((hi >> 3u8) & 1) << 1u8) | ((lo >> 3u8) & 1),
            p5 == (((hi >> 2u8) & 1) << 1u8) | ((lo >> 2u8) & 1),
            p6 == (((hi >> 1u8) & 1) << 1u8) | ((lo >> 1u8) & 1),
            p7 == (((hi >> 0u8) & 1) << 1u8) | ((lo >> 0u8) & 1),
    ;
}

/// An 8x8 block of colour indices in {0, 1, 2, 3}.
pub struct Tile {
    pub pixels: [[u8; 8]; 8],
}

impl Tile {
    pub open spec fn pixel(&self, row: int, col: int) -> u8 {
        self.pixels@[row]@[col]
    }

    /// The 16 bytes that encode this tile.
    pub open spec fn encoded(&self) -> Seq<u8> {
        Seq::new(16, |i: int| plane_byte(self.pixels@[i / 2]@, (i % 2) as u8))
    }

    /// Decodes a tile from its 16 bytes (eight pairs of low-plane and high-plane bytes).
    pub fn from_bytes(bytes: [u8; 16]) -> (t: Tile)
        ensures
            forall|r: int, c: int| 0 <= r < 8 && 0 <= c < 8 ==> #[trigger] t.pixel(r, c) == tile_pixel(bytes@, r, c),
    {
        let mut pixels: [[u8; 8]; 8] = [[0u8; 8]; 8];
        let mut row: usize = 0;
        while row < 8
            invariant
                0 <= row <= 8,
                forall|r: int, c: int| 0 <= r < row && 0 <= c < 8 ==> #[trigger] pixels@[r]@[c] == tile_pixel(bytes@, r, c),
            decreases 8 - row,
        {
            let low: u8 = bytes[row * 2];
            let high: u8 = bytes[row * 2 + 1];
            let mut line: [u8; 8] = [0u8; 8];
            let mut col: usize = 0;
            while col < 8
                invariant
                    0 <= row < 8,
                    0 <= col <= 8,
                    low == bytes@[2 * row as int],
                    high == bytes@[2 * row + 1],
                    forall|c: int| 0 <= c < col ==> #[trigger] line@[c] == tile_pixel(bytes@, row as int, c),
                decreases 8 - col,
            {
                let bit: u8 = 7 - col as u8;
                line[col] = (((high >> bit) & 1) << 1u8) | ((low >> bit) & 1);
                col += 1;
            }
            pixels[row] = line;
            row += 1;
        }
        Tile { pixels }
    }
}

impl Tile {
    pub fn get_pixel(&self, x: usize, y: usize) -> (r: u8)
        requires
            x < 8,
            y < 8,
        ensures
            r == self.pixel(y as int, x as int),
    {
        self.pixels[y][x]
    }

    pub fn get_pixels(&self) -> (r: [[u8; 8]; 8])
        ensures
            r == self.pixels,
    {
        self.pixels
    }

    /// Encodes the tile back into its 16 bytes.
    pub fn to_bytes(&self) -> (r: [u8; 16])
        ensures
            r@ == self.encoded(),
    {
        let mut bytes: [u8; 16] = [0u8; 16];
        let mut row: usize = 0;
        while row < 8
            invariant
                0 <= row <= 8,
                forall|i: int| 0 <= i < 2 * row ==> #[trigger] bytes@[i] == self.encoded()[i],
            decreases 8 - row,
        {
            let line: [u8; 8] = self.pixels[row];
            bytes[2 * row] = encode_plane(&line, 0);
            bytes[2 * row + 1] = encode_plane(&line, 1);
            row += 1;
        }
        assert(bytes@ =~= self.encoded());
        bytes
    }
}

/// One bit plane of a row of eight colour indices.
fn encode_plane(line: &[u8; 8], plane: u8) -> (r: u8)
    requires
        plane < 8,
    ensures
        r == plane_byte(line@, plane),
{
    (((line[0] >> plane) & 1) << 7u8) | (((line[1] >> plane) & 1) << 6u8) | (((line[2] >> plane) & 1)
        << 5u8) | (((line[3] >> plane) & 1) << 4u8) | (((line[4] >> plane) & 1) << 3u8) | (((line[5]
        >> plane) & 1) << 2u8) | (((line[6] >> plane) & 1) << 1u8) | ((line[7] >> plane) & 1)
}

/// Decoding 16 bytes into a tile and encoding the tile again gives back the 16 bytes.
pub proof fn lemma_tile_round_trip(bytes: [u8; 16], t: Tile)
    requires
        forall|r: int, c: int| 0 <= r < 8 && 0 <= c < 8 ==> #[trigger] t.pixel(r, c) == tile_pixel(bytes@, r, c),
    ensures
        t.encoded() == bytes@,
{
    assert forall|i: int| 0 <= i < 16 implies #[trigger] t.encoded()[i] == bytes@[i] by {
        let r = i / 2;
        let lo = bytes@[2 * r];
        let hi = bytes@[2 * r + 1];
        lemma_row_round_trip(lo, hi);
        let line = t.pixels@[r]@;
        assert(line[0] == t.pixel(r, 0));
        assert(line[1] == t.pixel(r, 1));
        assert(line[2] == t.pixel(r, 2));
        assert(line[3] == t.pixel(r, 3));
        assert(line[4] == t.pixel(r, 4));
        assert(line[5] == t.pixel(r, 5));
        assert(line[6] == t.pixel(r, 6));
        assert(line[7] == t.pixel(r, 7));
    }
    assert(t.encoded() =~= bytes@);
}

} // verus!
