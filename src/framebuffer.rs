use vstd::prelude::*;

verus! {

/// A `width` x `height` grid of pixels stored in row-major order: the pixel
/// in row `r` and column `c` sits at index `c + r * width`.
pub struct Framebuffer<P> {
    width: usize,
    height: usize,
    buf: Vec<P>,
}

impl<P> View for Framebuffer<P> {
    type V = Seq<P>;

    /// The pixels, in row-major order.
    closed spec fn view(&self) -> Seq<P> {
        self.buf@
    }
}

impl<P> Framebuffer<P> {
    pub closed spec fn spec_width(&self) -> nat {
        self.width as nat
    }

    pub closed spec fn spec_height(&self) -> nat {
        self.height as nat
    }

    /// A framebuffer every pixel of which is `fill`.
    pub fn new(width: usize, height: usize, fill: P) -> (r: Self)
        where
            P: Copy,
        requires
            width * height <= usize::MAX,
        ensures
            r.spec_width() == width,
            r.spec_height() == height,
            r@ == Seq::new((width * height) as nat, |i: int| fill),
    {
        let n = width * height;
        let mut buf: Vec<P> = Vec::with_capacity(n);
        let mut i: usize = 0;
        while i < n
            invariant
                i <= n,
                buf@ == Seq::new(i as nat, |j: int| fill),
            decreases n - i,
        {
            buf.push(fill);
            i += 1;
            assert(buf@ =~= Seq::new(i as nat, |j: int| fill));
        }
        Framebuffer { width, height, buf }
    }

    pub fn width(&self) -> (r: usize)
        ensures
            r == self.spec_width(),
    {
        self.width
    }

    pub fn height(&self) -> (r: usize)
        ensures
            r == self.spec_height(),
    {
        self.height
    }

    /// The pixels, in row-major order.
    pub fn buf(&self) -> (r: &[P])
        ensures
            r@ == self@,
    {
        self.buf.as_slice()
    }

    /// The pixels, in row-major order, for writing in place.
    pub fn buf_mut(&mut self) -> (r: &mut [P])
        ensures
            r@ == old(self)@,
            final(self)@ == final(r)@,
            final(self).spec_width() == old(self).spec_width(),
            final(self).spec_height() == old(self).spec_height(),
    {
        self.buf.as_mut_slice()
    }
}

/// The bytes of an 8-bit truecolor image: the pixels in order, each as its
/// red, green and blue channels.
pub open spec fn rgb_layout(pixels: Seq<[u8; 3]>) -> Seq<u8> {
    Seq::new(3 * pixels.len(), |j: int| pixels[j / 3][j % 3])
}

/// Lays out quantized pixels as the byte stream of an 8-bit RGB image.
pub fn rgb_bytes(pixels: &[[u8; 3]]) -> (r: Vec<u8>)
    requires
        3 * pixels@.len() <= usize::MAX,
    ensures
        r@ == rgb_layout(pixels@),
{
    let n = pixels.len();
    let mut out: Vec<u8> = Vec::with_capacity(3 * n);
    let mut i: usize = 0;
    while i < n
        invariant
            n == pixels@.len(),
            i <= n,
            out@.len() == 3 * i,
            forall|j: int| 0 <= j < 3 * i ==> #[trigger] out@[j] == pixels@[j / 3][j % 3],
        decreases n - i,
    {
        let px = pixels[i];
        out.push(px[0]);
        out.push(px[1]);
        out.push(px[2]);
        assert forall|j: int| 0 <= j < 3 * (i + 1) implies #[trigger] out@[j] == pixels@[j / 3][j % 3] by {
            if j >= 3 * i {
                assert(j / 3 == i && j % 3 == j - 3 * i) by (nonlinear_arith)
                    requires
                        3 * i <= j < 3 * i + 3,
                ;
            }
        }
        i += 1;
    }
    assert(out@ =~= rgb_layout(pixels@));
    out
}

} // verus!
