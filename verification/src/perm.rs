use vstd::prelude::*;

verus! {

/// Whether position `i` of the 9-character permission display is set:
/// position `i` shows mode bit `8 - i`, so the string reads
/// owner `rwx`, group `rwx`, other `rwx` from left to right.
pub open spec fn perm_bit(mode: u32, i: int) -> bool {
    mode & (1u32 << ((8 - i) as u32)) != 0
}

/// The letter shown at position `i` of the permission display when its bit
/// is set: `r`, `w` or `x` by the position within its triple.
pub open spec fn rwx_char(i: int) -> char {
    if i % 3 == 0 {
        'r'
    } else if i % 3 == 1 {
        'w'
    } else {
        'x'
    }
}

/// The 9-character permission display of a mode: a letter where the bit is
/// set, `-` where it is clear.
pub open spec fn spec_perm_string(mode: u32) -> Seq<char> {
    Seq::new(9, |i: int| if perm_bit(mode, i) { rwx_char(i) } else { '-' })
}

/// Render the lower 9 mode bits as the `rwx` permission string.
pub fn perm_string(mode: u32) -> (s: String)
    ensures
        s@ == spec_perm_string(mode),
{
    let mut s = String::new();
    let mut i: usize = 0;
    while i < 9
        invariant
            0 <= i <= 9,
            s@.len() == i,
            forall|j: int| 0 <= j < i ==> s@[j] == spec_perm_string(mode)[j],
        decreases 9 - i,
    {
        let shift: u32 = 8 - (i as u32);
        let piece: &str = if mode & (1u32 << shift) != 0 {
            if i % 3 == 0 {
                "r"
            } else if i % 3 == 1 {
                "w"
            } else {
                "x"
            }
        } else {
            "-"
        };
        proof {
            reveal_strlit("r");
            reveal_strlit("w");
            reveal_strlit("x");
            reveal_strlit("-");
        }
        s.append(piece);
        i = i + 1;
    }
    proof {
        assert(s@ =~= spec_perm_string(mode));
    }
    s
}

/// The 9 bits a permission display denotes: a set bit wherever the
/// character is not `-`.
pub open spec fn spec_perm_mode_upto(s: Seq<char>, i: int) -> u32
    decreases i,
{
    if i <= 0 {
        0u32
    } else {
        spec_perm_mode_upto(s, i - 1) | (if s[i - 1] != '-' {
            1u32 << ((9 - i) as u32)
        } else {
            0u32
        })
    }
}

/// The mode bits a full 9-character permission display denotes.
pub open spec fn spec_perm_mode(s: Seq<char>) -> u32 {
    spec_perm_mode_upto(s, 9)
}

/// Rebuild the lower 9 mode bits from a permission display.
pub fn perm_mode(s: &str) -> (mode: u32)
    requires
        s@.len() == 9,
    ensures
        mode == spec_perm_mode(s@),
{
    let mut mode: u32 = 0;
    let mut i: usize = 0;
    while i < 9
        invariant
            0 <= i <= 9,
            s@.len() == 9,
            mode == spec_perm_mode_upto(s@, i as int),
        decreases 9 - i,
    {
        let c = s.get_char(i);
        if c != '-' {
            let shift: u32 = 8 - (i as u32);
            mode = mode | (1u32 << shift);
        } else {
            proof {
                let m = mode;
                assert(m | 0u32 == m) by (bit_vector);
            }
        }
        i = i + 1;
    }
    mode
}

/// Rendering a mode as its permission string and reading the string back
/// recovers exactly the lower 9 bits of the mode.
pub proof fn lemma_perm_round_trip(mode: u32)
    ensures
        spec_perm_mode(spec_perm_string(mode)) == mode & 0x1ffu32,
{
    let s = spec_perm_string(mode);
    assert forall|i: int| 0 <= i < 9 implies (s[i] != '-') == perm_bit(mode, i) by {
        if perm_bit(mode, i) {
            assert(rwx_char(i) != '-');
        }
    }
    let b8: u32 = if s[0] != '-' { 1u32 << 8u32 } else { 0u32 };
    let b7: u32 = if s[1] != '-' { 1u32 << 7u32 } else { 0u32 };
    let b6: u32 = if s[2] != '-' { 1u32 << 6u32 } else { 0u32 };
    let b5: u32 = if s[3] != '-' { 1u32 << 5u32 } else { 0u32 };
    let b4: u32 = if s[4] != '-' { 1u32 << 4u32 } else { 0u32 };
    let b3: u32 = if s[5] != '-' { 1u32 << 3u32 } else { 0u32 };
    let b2: u32 = if s[6] != '-' { 1u32 << 2u32 } else { 0u32 };
    let b1: u32 = if s[7] != '-' { 1u32 << 1u32 } else { 0u32 };
    let b0: u32 = if s[8] != '-' { 1u32 << 0u32 } else { 0u32 };
    assert(0u32 | b8 == b8) by (bit_vector);
    assert(spec_perm_mode(s) == ((((((((b8 | b7) | b6) | b5) | b4) | b3) | b2) | b1) | b0)) by {
        reveal_with_fuel(spec_perm_mode_upto, 10);
    }
    assert(b8 == mode & (1u32 << 8u32)) by (bit_vector)
        requires b8 == (if mode & (1u32 << 8u32) != 0 { 1u32 << 8u32 } else { 0u32 });
    assert(b7 == mode & (1u32 << 7u32)) by (bit_vector)
        requires b7 == (if mode & (1u32 << 7u32) != 0 { 1u32 << 7u32 } else { 0u32 });
    assert(b6 == mode & (1u32 << 6u32)) by (bit_vector)
        requires b6 == (if mode & (1u32 << 6u32) != 0 { 1u32 << 6u32 } else { 0u32 });
    assert(b5 == mode & (1u32 << 5u32)) by (bit_vector)
        requires b5 == (if mode & (1u32 << 5u32) != 0 { 1u32 << 5u32 } else { 0u32 });
    assert(b4 == mode & (1u32 << 4u32)) by (bit_vector)
        requires b4 == (if mode & (1u32 << 4u32) != 0 { 1u32 << 4u32 } else { 0u32 });
    assert(b3 == mode & (1u32 << 3u32)) by (bit_vector)
        requires b3 == (if mode & (1u32 << 3u32) != 0 { 1u32 << 3u32 } else { 0u32 });
    assert(b2 == mode & (1u32 << 2u32)) by (bit_vector)
        requires b2 == (if mode & (1u32 << 2u32) != 0 { 1u32 << 2u32 } else { 0u32 });
    assert(b1 == mode & (1u32 << 1u32)) by (bit_vector)
        requires b1 == (if mode & (1u32 << 1u32) != 0 { 1u32 << 1u32 } else { 0u32 });
    assert(b0 == mode & (1u32 << 0u32)) by (bit_vector)
        requires b0 == (if mode & (1u32 << 0u32) != 0 { 1u32 << 0u32 } else { 0u32 });
    assert((((((((((mode & (1u32 << 8u32)) | (mode & (1u32 << 7u32))) | (mode & (1u32 << 6u32)))
        | (mode & (1u32 << 5u32))) | (mode & (1u32 << 4u32))) | (mode & (1u32 << 3u32)))
        | (mode & (1u32 << 2u32))) | (mode & (1u32 << 1u32))) | (mode & (1u32 << 0u32)))
        == mode & 0x1ffu32) by (bit_vector);
}

} // verus!
