use vstd::prelude::*;

verus! {

/// The monochrome display, held as the device takes it: four pages of 128 columns, one byte
/// per column and page, bit `k` of the byte for page `p` being pixel row `8 * p + k`.
pub struct Screen {
    buf: [u8; 512],
}

impl Screen {
    /// Whether the pixel at row `r` and column `c` is lit in the packed bytes `bytes`.
    pub open spec fn lit(bytes: Seq<u8>, r: int, c: int) -> bool {
        (bytes[(r / 8) * 128 + c] >> ((r % 8) as u8)) & 1u8 == 1u8
    }

    /// The pixel grid that packed bytes hold: 32 rows of 128 pixels.
    pub open spec fn pixels_of(bytes: Seq<u8>) -> Seq<Seq<bool>> {
        Seq::new(32, |r: int| Seq::new(128, |c: int| Screen::lit(bytes, r, c)))
    }

    /// The grid with no pixel lit.
    pub open spec fn blank() -> Seq<Seq<bool>> {
        Seq::new(32, |r: int| Seq::new(128, |c: int| false))
    }

    /// The packed bytes of the display.
    pub closed spec fn bytes(&self) -> Seq<u8> {
        self.buf@
    }

    /// The packed bytes are 512 and hold the pixel grid that the screen shows.
    pub proof fn lemma_bytes(&self)
        ensures
            self.bytes().len() == 512,
            Screen::pixels_of(self.bytes()) == self@,
    {
    }

    /// Creates a screen with no pixel lit.
    pub fn new() -> (s: Screen)
        ensures
            s@ == Screen::blank(),
            s.bytes() == Seq::new(512, |i: int| 0u8),
    {
        let s = Screen { buf: [0u8; 512] };
        proof {
            assert(s.bytes() =~= Seq::new(512, |i: int| 0u8));
            Screen::lemma_zero_bytes_blank(s.bytes());
        }
        s
    }

    /// Packed bytes that are all zero show no pixel lit.
    proof fn lemma_zero_bytes_blank(bytes: Seq<u8>)
        requires
            bytes.len() == 512,
            forall|i: int| 0 <= i < 512 ==> bytes[i] == 0,
        ensures
            Screen::pixels_of(bytes) == Screen::blank(),
    {
        assert forall|r: int, c: int| 0 <= r < 32 && 0 <= c < 128 implies !Screen::lit(bytes, r, c) by {
            let k = (r % 8) as u8;
            assert((0u8 >> k) & 1u8 == 0u8) by (bit_vector);
        }
        assert forall|r: int| 0 <= r < 32 implies Screen::pixels_of(bytes)[r] =~= Screen::blank()[r] by {}
        assert(Screen::pixels_of(bytes) =~= Screen::blank());
    }

    /// Turns every pixel off.
    pub fn reset(&mut self)
        ensures
            final(self)@ == Screen::blank(),
            final(self).bytes() == Seq::new(512, |i: int| 0u8),
    {
        let mut i: usize = 0;
        while i < 512
            invariant
                i <= 512,
                self.bytes().len() == 512,
                forall|k: int| 0 <= k < i ==> self.bytes()[k] == 0,
            decreases 512 - i,
        {
            self.buf[i] = 0;
            i = i + 1;
        }
        proof {
            assert(self.bytes() =~= Seq::new(512, |i: int| 0u8));
            Screen::lemma_zero_bytes_blank(self.bytes());
        }
    }

    /// Setting or clearing bit `k` of a byte changes bit `k` alone.
    proof fn lemma_bit_update(b: u8, k: u8, m: u8)
        requires
            k < 8,
            m < 8,
        ensures
            ((b | (1u8 << k)) >> m) & 1u8 == (if m == k { 1u8 } else { (b >> m) & 1u8 }),
            ((b & !(1u8 << k)) >> m) & 1u8 == (if m == k { 0u8 } else { (b >> m) & 1u8 }),
    {
        assert(((b | (1u8 << k)) >> m) & 1u8 == (if m == k { 1u8 } else { (b >> m) & 1u8 }))
            by (bit_vector)
            requires
                k < 8,
                m < 8,
        ;
        assert(((b & !(1u8 << k)) >> m) & 1u8 == (if m == k { 0u8 } else { (b >> m) & 1u8 }))
            by (bit_vector)
            requires
                k < 8,
                m < 8,
        ;
    }

    /// Returns whether the pixel at row `i` and column `j` is lit.
    pub fn get(&self, i: usize, j: usize) -> (r: bool)
        requires
            i < 32,
            j < 128,
        ensures
            r == self@[i as int][j as int],
    {
        let idx = (i / 8) * 128 + j;
        let bit = (i % 8) as u8;
        (self.buf[idx] >> bit) & 1u8 == 1u8
    }

    /// Lights the pixel at row `i` and column `j` when `val` holds, else turns it off;
    /// every other pixel stays as it was.
    pub fn set(&mut self, i: usize, j: usize, val: bool)
        requires
            i < 32,
            j < 128,
        ensures
            final(self)@ == old(self)@.update(i as int, old(self)@[i as int].update(j as int, val)),
    {
        let idx = (i / 8) * 128 + j;
        let bit = (i % 8) as u8;
        let old_byte = self.buf[idx];
        let new_byte = if val {
            old_byte | (1u8 << bit)
        } else {
            old_byte & !(1u8 << bit)
        };
        self.buf[idx] = new_byte;
        proof {
            let ob = old(self).bytes();
            let nb = self.bytes();
            assert(nb == ob.update(idx as int, new_byte));
            assert forall|r: int, c: int| 0 <= r < 32 && 0 <= c < 128 implies Screen::lit(nb, r, c)
                == (if r == i && c == j { val } else { Screen::lit(ob, r, c) }) by {
                let p = (r / 8) * 128 + c;
                let m = (r % 8) as u8;
                if p == idx {
                    assert(r / 8 == i / 8 && c == j);
                    Screen::lemma_bit_update(old_byte, bit, m);
                    if r != i {
                        assert(m != bit);
                    }
                } else {
                    assert(nb[p] == ob[p]);
                }
            }
            let expected = old(self)@.update(i as int, old(self)@[i as int].update(j as int, val));
            assert forall|r: int| 0 <= r < 32 implies Screen::pixels_of(nb)[r] =~= expected[r] by {}
            assert(Screen::pixels_of(nb) =~= expected);
        }
    }

    /// The header and bytes of the report that sends half `half` (0 for the upper two pages,
    /// 1 for the lower two) of the display to the device.
    pub fn frame(&self, half: usize) -> (r: Vec<u8>)
        requires
            half < 2,
        ensures
            r@ == seq![0xe0u8, 0x00u8, 0x00u8, (2 * half) as u8, 0x00u8, 0x80u8, 0x00u8, 0x02u8, 0x00u8]
                + self.bytes().subrange(256 * half, 256 * half + 256),
    {
        let mut r: Vec<u8> = Vec::new();
        r.push(0xe0);
        r.push(0x00);
        r.push(0x00);
        r.push((2 * half) as u8);
        r.push(0x00);
        r.push(0x80);
        r.push(0x00);
        r.push(0x02);
        r.push(0x00);
        let ghost header = r@;
        let base = 256 * half;
        let mut i: usize = 0;
        while i < 256
            invariant
                i <= 256,
                base == 256 * half,
                half < 2,
                self.bytes().len() == 512,
                r@ == header + self.bytes().subrange(base as int, base + i),
            decreases 256 - i,
        {
            r.push(self.buf[base + i]);
            i = i + 1;
            assert(r@ =~= header + self.bytes().subrange(base as int, base + i));
        }
        r
    }
}

impl View for Screen {
    type V = Seq<Seq<bool>>;

    closed spec fn view(&self) -> Seq<Seq<bool>> {
        Screen::pixels_of(self.buf@)
    }
}

} // verus!
