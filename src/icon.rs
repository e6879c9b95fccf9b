use vstd::prelude::*;

verus! {

/// What `bytes` decode to as an 8-bit RGBA image: its width, its height and
/// its pixel bytes row by row, or `None` where they hold no image in a
/// format that the decoder reads.
pub uninterp spec fn decoded_rgba8(bytes: Seq<u8>) -> Option<(u32, u32, Seq<u8>)>;

/// Relies on `image::guess_format`, which reads the format from the leading
/// magic bytes against the crate's built-in table, and
/// `image::load_from_memory_with_format`, which decodes with the built-in
/// decoder of that format (neither consults the process-wide hook
/// registries); then `DynamicImage::to_rgba8`, `ImageBuffer::dimensions` and
/// `ImageBuffer::into_raw`. The result depends on the bytes alone, and the
/// RGBA buffer holds exactly four bytes for each of its `width * height`
/// pixels.
#[verifier::external_body]
fn decode_rgba8(bytes: &[u8]) -> (r: Option<(u32, u32, Vec<u8>)>)
    ensures
        r matches Some(d) ==> decoded_rgba8(bytes@) == Some((d.0, d.1, d.2@)) && d.2@.len() == 4
            * d.0 * d.1,
        r is None ==> decoded_rgba8(bytes@) is None,
{
    let format = match image::guess_format(bytes) {
        Ok(format) => format,
        Err(_) => return None,
    };
    match image::load_from_memory_with_format(bytes, format) {
        Ok(img) => {
            let rgba = img.to_rgba8();
            let (width, height) = rgba.dimensions();
            Some((width, height, rgba.into_raw()))
        },
        Err(_) => None,
    }
}

/// `count` zero bytes.
pub open spec fn zeros(count: nat) -> Seq<u8> {
    Seq::new(count, |i: int| 0u8)
}

/// The first `rows` rows of an RGBA image `width` pixels wide, each one
/// followed by transparent pixels up to `side` pixels.
pub open spec fn padded_rows(px: Seq<u8>, width: nat, side: nat, rows: nat) -> Seq<u8>
    decreases rows,
{
    if rows == 0 {
        seq![]
    } else {
        padded_rows(px, width, side, (rows - 1) as nat) + px.subrange(
            4 * width * (rows - 1),
            (4 * width * rows) as int,
        ) + zeros((4 * (side - width)) as nat)
    }
}

/// Each padded row is `side` pixels long.
proof fn lemma_padded_rows_len(px: Seq<u8>, width: nat, side: nat, rows: nat)
    requires
        width <= side,
        px.len() >= 4 * width * rows,
    ensures
        padded_rows(px, width, side, rows).len() == 4 * side * rows,
    decreases rows,
{
    if rows > 0 {
        assert(4 * width * rows == 4 * width * (rows - 1) + 4 * width && 4 * side * rows == 4
            * side * (rows - 1) + 4 * side) by (nonlinear_arith)
            requires
                rows >= 1,
        ;
        lemma_padded_rows_len(px, width, side, (rows - 1) as nat);
        assert(zeros((4 * (side - width)) as nat).len() == 4 * (side - width));
        assert(px.subrange(4 * width * (rows - 1), (4 * width * rows) as int).len() == 4 * width);
    } else {
        assert(4 * side * rows == 0) by (nonlinear_arith)
            requires
                rows == 0,
        ;
    }
}

/// Pixel bytes turned from RGBA to ARGB order: each whole group of four is
/// rotated so that its last byte comes first; a shorter tail stays as it is.
pub open spec fn argb_of(px: Seq<u8>) -> Seq<u8> {
    Seq::new(
        px.len(),
        |k: int|
            if k < px.len() - px.len() % 4 && k % 4 == 0 {
                px[k + 3]
            } else if k < px.len() - px.len() % 4 {
                px[k - 1]
            } else {
                px[k]
            },
    )
}

/// The icon bytes of a `width` by `height` RGBA image: an image narrower
/// than tall is first padded on the right to a square, then the bytes are
/// turned to ARGB.
pub open spec fn icon_pixels(width: u32, height: u32, px: Seq<u8>) -> Seq<u8> {
    if width < height {
        argb_of(padded_rows(px, width as nat, height as nat, height as nat))
    } else {
        argb_of(px)
    }
}

/// An icon in the form the tray takes: ARGB bytes, row by row.
pub struct Data {
    pub height: u32,
    pub width: u32,
    pub data: Vec<u8>,
}

/// Pads each row of a `width`-pixel image to `height` pixels.
fn pad_to_square(width: u32, height: u32, px: &Vec<u8>) -> (r: Vec<u8>)
    requires
        width < height,
        px@.len() >= 4 * width * height,
    ensures
        r@ == padded_rows(px@, width as nat, height as nat, height as nat),
{
    let ghost w = width as nat;
    let ghost h = height as nat;
    assert(4 * w <= 4 * w * h) by (nonlinear_arith)
        requires
            h >= 1,
    ;
    let total = px.len();
    let row_len: usize = 4 * (width as usize);
    let mut out: Vec<u8> = Vec::new();
    let mut row: u32 = 0;
    let mut start: usize = 0;
    while row < height
        invariant
            width < height,
            px@.len() >= 4 * w * h,
            total == px@.len(),
            w == width,
            h == height,
            row_len == 4 * w,
            row <= height,
            start == 4 * w * row,
            out@ == padded_rows(px@, w, h, row as nat),
        decreases height - row,
    {
        assert(4 * w * (row + 1) == 4 * w * row + 4 * w && 4 * w * (row + 1) <= 4 * w * h)
            by (nonlinear_arith)
            requires
                row + 1 <= h,
        ;
        let ghost before = out@;
        let mut j: usize = 0;
        while j < row_len
            invariant
                px@.len() >= 4 * w * h,
                total == px@.len(),
                row_len == 4 * w,
                start + row_len <= px@.len(),
                j <= row_len,
                out@ == before + px@.subrange(start as int, start + j),
            decreases row_len - j,
        {
            out.push(px[start + j]);
            j = j + 1;
            assert(out@ =~= before + px@.subrange(start as int, start + j));
        }
        let ghost copied = out@;
        let mut p: u32 = 0;
        while p < height - width
            invariant
                width < height,
                p <= height - width,
                out@ == copied + zeros(4 * p as nat),
            decreases height - width - p,
        {
            out.push(0);
            out.push(0);
            out.push(0);
            out.push(0);
            p = p + 1;
            assert(out@ =~= copied + zeros(4 * p as nat));
        }
        start = start + row_len;
        row = row + 1;
        assert(out@ =~= padded_rows(px@, w, h, row as nat));
    }
    out
}

/// Turns pixel bytes from RGBA to ARGB in place.
fn rotate_to_argb(px: &mut Vec<u8>)
    ensures
        final(px)@ == argb_of(old(px)@),
{
    let ghost orig = px@;
    let n = px.len();
    let whole = n - n % 4;
    let mut i: usize = 0;
    while i < whole
        invariant
            n == orig.len(),
            px@.len() == n,
            whole == n - n % 4,
            i % 4 == 0,
            i <= whole,
            forall|k: int| 0 <= k < i ==> px@[k] == #[trigger] argb_of(orig)[k],
            forall|k: int| i <= k < n ==> px@[k] == #[trigger] orig[k],
        decreases whole - i,
    {
        let alpha = px[i + 3];
        px[i + 3] = px[i + 2];
        px[i + 2] = px[i + 1];
        px[i + 1] = px[i];
        px[i] = alpha;
        i = i + 4;
    }
    assert(px@ =~= argb_of(orig));
}

/// Makes an icon from a decoded `width` by `height` RGBA image: square where
/// it was narrower than tall, in ARGB order.
pub fn square_argb(width: u32, height: u32, px: Vec<u8>) -> (r: Data)
    requires
        px@.len() >= 4 * width * height,
    ensures
        r.height == height,
        r.width == if width < height {
            height
        } else {
            width
        },
        r.data@ == icon_pixels(width, height, px@),
        px@.len() == 4 * width * height ==> r.data@.len() == 4 * r.width * r.height,
{
    proof {
        if width < height {
            lemma_padded_rows_len(px@, width as nat, height as nat, height as nat);
        }
    }
    let mut data = px;
    let mut side = width;
    if width < height {
        data = pad_to_square(width, height, &data);
        side = height;
    }
    rotate_to_argb(&mut data);
    Data { height, width: side, data }
}

/// Decodes an image file held in memory into an icon, or `None` where the
/// bytes hold no image that the decoder reads.
pub fn load_embedded_image(image: &[u8]) -> (r: Option<Data>)
    ensures
        match decoded_rgba8(image@) {
            None => r is None,
            Some((w, h, px)) => r matches Some(d) && d.height == h && d.width == (if w < h {
                h
            } else {
                w
            }) && d.data@ == icon_pixels(w, h, px) && d.data@.len() == 4 * d.width * d.height,
        },
{
    match decode_rgba8(image) {
        None => None,
        Some((width, height, px)) => Some(square_argb(width, height, px)),
    }
}

} // verus!
