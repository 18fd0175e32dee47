//! Plain-text PPM serialization.
//!
//! The image format is "P3": the header `P3`, a line `<width> <height>`,
//! a line `255`, then one line `<r> <g> <b>` per pixel. Rows are emitted
//! top-first: framebuffer row `height - 1` comes first, row `0` last, so
//! image row 0 is the top of the rendered scene.

use vstd::prelude::*;

use crate::framebuf::Framebuf;
use crate::rgb::RGB;

verus! {

/// The decimal digits of `n` in ASCII, most significant first, with no
/// leading zeros (and `"0"` for zero).
pub open spec fn dec_rep(n: nat) -> Seq<u8>
    decreases n,
{
    if n < 10 {
        seq![(48 + n) as u8]
    } else {
        dec_rep(n / 10) + seq![(48 + n % 10) as u8]
    }
}

/// One pixel's output line: the three channel values in decimal,
/// separated by single spaces, ended by a newline.
pub open spec fn pixel_line(p: RGB<u8>) -> Seq<u8> {
    dec_rep(p.r as nat) + seq![32u8] + dec_rep(p.g as nat) + seq![32u8] + dec_rep(p.b as nat)
        + seq![10u8]
}

/// The header: `P3`, the dimensions, and the maximum channel value 255,
/// each on a line of its own (dimensions share one line).
pub open spec fn ppm_header(w: nat, h: nat) -> Seq<u8> {
    seq![80u8, 51u8, 10u8] + dec_rep(w) + seq![32u8] + dec_rep(h) + seq![10u8] + dec_rep(255)
        + seq![10u8]
}

/// The lines of the first `x` pixels of framebuffer row `y`, in order of
/// increasing x.
pub open spec fn row_prefix(pix: Seq<RGB<u8>>, w: nat, y: nat, x: nat) -> Seq<u8>
    decreases x,
{
    if x == 0 {
        Seq::empty()
    } else {
        row_prefix(pix, w, y, (x - 1) as nat) + pixel_line(pix[y * w + (x - 1)])
    }
}

/// The full output line of framebuffer row `y`.
pub open spec fn row_line(pix: Seq<RGB<u8>>, w: nat, y: nat) -> Seq<u8> {
    row_prefix(pix, w, y, w)
}

/// The first `k` emitted rows: framebuffer rows `h - 1` down to `h - k`.
pub open spec fn top_rows(pix: Seq<RGB<u8>>, w: nat, h: nat, k: nat) -> Seq<u8>
    decreases k,
{
    if k == 0 {
        Seq::empty()
    } else {
        top_rows(pix, w, h, (k - 1) as nat) + row_line(pix, w, (h - k) as nat)
    }
}

/// The whole serialized image for a `w` x `h` framebuffer holding the
/// row-major pixels `pix`: the header, then every row from top to
/// bottom.
pub open spec fn ppm_image(w: nat, h: nat, pix: Seq<RGB<u8>>) -> Seq<u8> {
    ppm_header(w, h) + top_rows(pix, w, h, h)
}

/// The serialized image is a function of the framebuffer dimensions and
/// contents alone: framebuffers of equal size holding equal pixels
/// serialize to byte-identical output.
pub proof fn lemma_ppm_deterministic(a: Framebuf<RGB<u8>>, b: Framebuf<RGB<u8>>)
    requires
        a.width == b.width,
        a.height == b.height,
        a@ == b@,
    ensures
        ppm_image(a.width as nat, a.height as nat, a@) == ppm_image(
            b.width as nat,
            b.height as nat,
            b@,
        ),
{
}

/// Appends the ASCII decimal digits of `n` to `out`.
pub fn push_dec(out: &mut Vec<u8>, n: u32)
    ensures
        final(out)@ == old(out)@ + dec_rep(n as nat),
    decreases n,
{
    if n < 10 {
        let d: u8 = 48 + (n as u8);
        out.push(d);
        assert(out@ =~= old(out)@ + dec_rep(n as nat));
    } else {
        push_dec(out, n / 10);
        let d: u8 = 48 + ((n % 10) as u8);
        out.push(d);
        assert(out@ =~= old(out)@ + dec_rep(n as nat));
    }
}

/// Serializes the framebuffer as a plain-text PPM image, top row first.
pub fn ppm_encode(fb: &Framebuf<RGB<u8>>) -> (out: Vec<u8>)
    requires
        fb.wf(),
    ensures
        out@ == ppm_image(fb.width as nat, fb.height as nat, fb@),
{
    let ghost w: nat = fb.width as nat;
    let ghost h: nat = fb.height as nat;
    let mut out: Vec<u8> = Vec::new();
    out.push(80);
    out.push(51);
    out.push(10);
    push_dec(&mut out, fb.width);
    out.push(32);
    push_dec(&mut out, fb.height);
    out.push(10);
    push_dec(&mut out, 255);
    out.push(10);
    assert(out@ =~= ppm_header(w, h));

    let mut k: u32 = 0;
    while k < fb.height
        invariant
            fb.wf(),
            w == fb.width as nat,
            h == fb.height as nat,
            k <= fb.height,
            out@ == ppm_header(w, h) + top_rows(fb@, w, h, k as nat),
        decreases fb.height - k,
    {
        let y: u32 = fb.height - 1 - k;
        let mut x: u32 = 0;
        while x < fb.width
            invariant
                fb.wf(),
                w == fb.width as nat,
                h == fb.height as nat,
                k < fb.height,
                y == fb.height - 1 - k,
                x <= fb.width,
                out@ == ppm_header(w, h) + top_rows(fb@, w, h, k as nat) + row_prefix(
                    fb@,
                    w,
                    y as nat,
                    x as nat,
                ),
            decreases fb.width - x,
        {
            let p = fb.pixel(x, y);
            push_dec(&mut out, p.r as u32);
            out.push(32);
            push_dec(&mut out, p.g as u32);
            out.push(32);
            push_dec(&mut out, p.b as u32);
            out.push(10);
            assert(out@ =~= ppm_header(w, h) + top_rows(fb@, w, h, k as nat) + row_prefix(
                fb@,
                w,
                y as nat,
                (x + 1) as nat,
            ));
            x = x + 1;
        }
        assert(top_rows(fb@, w, h, (k + 1) as nat) == top_rows(fb@, w, h, k as nat) + row_line(
            fb@,
            w,
            y as nat,
        ));
        assert(out@ =~= ppm_header(w, h) + top_rows(fb@, w, h, (k + 1) as nat));
        k = k + 1;
    }
    assert(out@ =~= ppm_image(w, h, fb@));
    out
}

} // verus!
