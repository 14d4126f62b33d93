use vstd::prelude::*;

verus! {

/// The 32-bit word whose big-endian encoding is `b0 b1 b2 b3`, read as two's complement.
pub open spec fn be_word(b0: u8, b1: u8, b2: u8, b3: u8) -> i32 {
    (b0 as int * 0x1000000 + b1 as int * 0x10000 + b2 as int * 0x100 + b3 as int) as i32
}

/// The big-endian word stored in `buf` at byte offset `at`.
pub open spec fn be_word_at(buf: Seq<u8>, at: int) -> i32 {
    be_word(buf[at], buf[at + 1], buf[at + 2], buf[at + 3])
}

/// Reads the big-endian word at `*start_ptr` and moves the cursor past it.
pub fn get_big_endian_word(buf: &Vec<u8>, start_ptr: &mut usize) -> (w: i32)
    requires
        *old(start_ptr) + 4 <= buf@.len(),
    ensures
        w == be_word_at(buf@, *old(start_ptr) as int),
        *final(start_ptr) == *old(start_ptr) + 4,
{
    let p = *start_ptr;
    let len = buf.len();
    assert(p + 4 <= len);
    let b0 = buf[p] as u32;
    let b1 = buf[p + 1] as u32;
    let b2 = buf[p + 2] as u32;
    let b3 = buf[p + 3] as u32;
    assert(b0 * 0x1000000 + b1 * 0x10000 + b2 * 0x100 + b3 <= 0xffff_ffff) by (nonlinear_arith)
        requires
            b0 < 256,
            b1 < 256,
            b2 < 256,
            b3 < 256,
    ;
    let u: u32 = b0 * 0x1000000 + b1 * 0x10000 + b2 * 0x100 + b3;
    *start_ptr = p + 4;
    #[verifier::truncate]
    (u as i32)
}

/// The number every container starts with.
pub const MAGIC: i32 = 0x1DEADFAD;

/// The longest instruction stream a machine runs: program-counter arithmetic stays within `i32`.
pub const MAX_TEXT: usize = 0x7FFF_0000;

/// Why a container was rejected before anything ran.
#[derive(Debug, Clone, Copy, PartialEq, Eq, Structural)]
pub enum LoadError {
    /// The first word is not the magic number.
    BadMagic,
    /// A header field or a segment runs past the end of the bytes, or a size is negative.
    Truncated,
    /// The text segment is longer than a machine can address.
    TextTooLarge,
}

/// The two segments of a container.
pub struct Program {
    pub constant_pool: Vec<u8>,
    pub text: Vec<u8>,
}

/// Byte offset of the constant-pool data: magic, origin and size come first.
pub open spec fn pool_start() -> int {
    12
}

/// Byte offset of the text data in a container whose pool is `cp_size` bytes long.
pub open spec fn text_start(cp_size: int) -> int {
    pool_start() + cp_size + 8
}

/// What parsing `b` gives: the two segments on success, or the first problem found.
pub open spec fn parse_spec(b: Seq<u8>) -> Result<(Seq<u8>, Seq<u8>), LoadError> {
    if b.len() < 4 {
        Err(LoadError::Truncated)
    } else if be_word_at(b, 0) != MAGIC {
        Err(LoadError::BadMagic)
    } else if b.len() < pool_start() {
        Err(LoadError::Truncated)
    } else {
        let cp = be_word_at(b, 8) as int;
        if cp < 0 || text_start(cp) > b.len() {
            Err(LoadError::Truncated)
        } else {
            let ts = be_word_at(b, text_start(cp) - 4) as int;
            if ts < 0 || text_start(cp) + ts > b.len() {
                Err(LoadError::Truncated)
            } else if ts > MAX_TEXT {
                Err(LoadError::TextTooLarge)
            } else {
                Ok(
                    (
                        b.subrange(pool_start(), pool_start() + cp),
                        b.subrange(text_start(cp), text_start(cp) + ts),
                    ),
                )
            }
        }
    }
}

/// Copies `b[start..end]` into a new vector.
fn copy_range(b: &Vec<u8>, start: usize, end: usize) -> (r: Vec<u8>)
    requires
        start <= end <= b@.len(),
    ensures
        r@ == b@.subrange(start as int, end as int),
{
    let mut r: Vec<u8> = Vec::new();
    let mut i: usize = start;
    while i < end
        invariant
            start <= i <= end <= b@.len(),
            r@ == b@.subrange(start as int, i as int),
        decreases end - i,
    {
        r.push(b[i]);
        i = i + 1;
        assert(r@ =~= b@.subrange(start as int, i as int));
    }
    r
}

/// Splits a container into its constant pool and its text, checking the magic number and
/// every size field against the bytes at hand.
pub fn parse_container(b: &Vec<u8>) -> (r: Result<Program, LoadError>)
    ensures
        match parse_spec(b@) {
            Ok((pool, text)) => r matches Ok(p) && p.constant_pool@ == pool && p.text@ == text,
            Err(e) => r == Err::<Program, LoadError>(e),
        },
{
    let len = b.len();
    if len < 4 {
        return Err(LoadError::Truncated);
    }
    let mut ptr: usize = 0;
    let magic = get_big_endian_word(b, &mut ptr);
    if magic != MAGIC {
        return Err(LoadError::BadMagic);
    }
    if len < 12 {
        return Err(LoadError::Truncated);
    }
    let _cp_origin = get_big_endian_word(b, &mut ptr);
    let cp_size = get_big_endian_word(b, &mut ptr);
    if cp_size < 0 || len < 20 || cp_size as usize > len - 20 {
        return Err(LoadError::Truncated);
    }
    let cp_end = 12 + cp_size as usize;
    let pool = copy_range(b, 12, cp_end);
    ptr = cp_end;
    let _text_origin = get_big_endian_word(b, &mut ptr);
    let text_size = get_big_endian_word(b, &mut ptr);
    if text_size < 0 || text_size as usize > len - ptr {
        return Err(LoadError::Truncated);
    }
    if text_size as usize > MAX_TEXT {
        return Err(LoadError::TextTooLarge);
    }
    let text = copy_range(b, ptr, ptr + text_size as usize);
    Ok(Program { constant_pool: pool, text })
}

} // verus!
