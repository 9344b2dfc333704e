//! Sound requests: a comma-separated list of sound files, of which one is
//! played.
//!
//! A request such as `"sounds/jump_a.ogg, sounds/jump_b.ogg"` names the
//! variants of one sound. A variant is the text between two commas, with the
//! white space around it removed; the file that is played is the variant
//! behind the prefix `res:///`.

use vstd::prelude::*;

verus! {

/// The jump sounds of the player.
pub const JUMP: &'static str = "sounds/jump_a.ogg, sounds/jump_b.ogg, sounds/jump_c.ogg";

/// The sound of a hard landing.
pub const LAND: &'static str = "sounds/land.ogg";

/// The sound of a weapon switch.
pub const WEAPON_CHANGE: &'static str = "sounds/weapon_change.ogg";

/// The sound of an enemy that is hit.
pub const ENEMY_HURT: &'static str = "sounds/enemy_hurt.ogg";

/// The sound of an enemy that is destroyed.
pub const ENEMY_DESTROY: &'static str = "sounds/enemy_destroy.ogg";

/// The sound of an enemy's attack.
pub const ENEMY_ATTACK: &'static str = "sounds/enemy_attack.ogg";

/// White space in the sense of Unicode's property `White_Space`.
pub open spec fn is_whitespace(c: char) -> bool {
    let code = c as u32;
    ||| 0x09 <= code <= 0x0D
    ||| code == 0x20
    ||| code == 0x85
    ||| code == 0xA0
    ||| code == 0x1680
    ||| 0x2000 <= code <= 0x200A
    ||| code == 0x2028
    ||| code == 0x2029
    ||| code == 0x202F
    ||| code == 0x205F
    ||| code == 0x3000
}

/// The pieces of `s` between its commas, in order. A comma opens a new
/// piece; any other character joins the last piece. A text without a comma,
/// the empty one too, is one piece.
pub open spec fn split_commas(s: Seq<char>) -> Seq<Seq<char>>
    decreases s.len(),
{
    if s.len() == 0 {
        seq![Seq::<char>::empty()]
    } else {
        let before = split_commas(s.drop_last());
        if s.last() == ',' {
            before.push(Seq::<char>::empty())
        } else {
            before.update(before.len() - 1, before.last().push(s.last()))
        }
    }
}

/// The pieces, written one after the other with a comma between neighbours.
pub open spec fn join_commas(pieces: Seq<Seq<char>>) -> Seq<char>
    decreases pieces.len(),
{
    if pieces.len() == 0 {
        Seq::<char>::empty()
    } else if pieces.len() == 1 {
        pieces[0]
    } else {
        join_commas(pieces.drop_last()).push(',') + pieces.last()
    }
}

/// `s` without the white space at its start.
pub open spec fn trimmed_start(s: Seq<char>) -> Seq<char>
    decreases s.len(),
{
    if s.len() > 0 && is_whitespace(s[0]) {
        trimmed_start(s.drop_first())
    } else {
        s
    }
}

/// `s` without the white space at its end.
pub open spec fn trimmed_end(s: Seq<char>) -> Seq<char>
    decreases s.len(),
{
    if s.len() > 0 && is_whitespace(s.last()) {
        trimmed_end(s.drop_last())
    } else {
        s
    }
}

/// `s` without the white space at its start and at its end.
pub open spec fn trimmed(s: Seq<char>) -> Seq<char> {
    trimmed_end(trimmed_start(s))
}

/// The prefix of every sound file: `res:///`.
pub open spec fn resource_prefix() -> Seq<char> {
    seq!['r', 'e', 's', ':', '/', '/', '/']
}

/// Number of variants that a request names.
pub open spec fn variant_count(sound_path: Seq<char>) -> nat {
    split_commas(sound_path).len()
}

/// The sound file of variant number `variant` of a request.
pub open spec fn sound_resource(sound_path: Seq<char>, variant: int) -> Seq<char>
    recommends
        0 <= variant < variant_count(sound_path),
{
    resource_prefix() + trimmed(split_commas(sound_path)[variant])
}

/// Tells whether `c` is white space.
pub fn char_is_whitespace(c: char) -> (white: bool)
    ensures
        white == is_whitespace(c),
{
    let code: u32 = c as u32;
    (0x09 <= code && code <= 0x0D) || code == 0x20 || code == 0x85 || code == 0xA0 || code
        == 0x1680 || (0x2000 <= code && code <= 0x200A) || code == 0x2028 || code == 0x2029 || code
        == 0x202F || code == 0x205F || code == 0x3000
}

/// The characters of `s`, for access by position.
fn to_chars(s: &str) -> (chars: Vec<char>)
    ensures
        chars@ == s@,
{
    let mut chars: Vec<char> = Vec::new();
    for c in it: s.chars()
        invariant
            it.seq() == s@,
            chars@ == it.seq().take(it.index()),
    {
        chars.push(c);
    }
    chars
}

/// Splits a request at its commas.
pub fn split_sounds<'a>(sound_path: &'a str) -> (pieces: Vec<&'a str>)
    ensures
        pieces@.len() == variant_count(sound_path@),
        forall|k: int| 0 <= k < pieces@.len() ==> pieces@[k]@ == split_commas(sound_path@)[k],
{
    let chars = to_chars(sound_path);
    let mut pieces: Vec<&'a str> = Vec::new();
    let mut start: usize = 0;
    let mut i: usize = 0;
    proof {
        assert(chars@.take(0) =~= Seq::<char>::empty());
        assert(chars@.subrange(0, 0) =~= Seq::<char>::empty());
    }
    while i < chars.len()
        invariant
            start <= i <= chars.len(),
            chars@ == sound_path@,
            split_commas(chars@.take(i as int)).len() == pieces@.len() + 1,
            forall|k: int|
                0 <= k < pieces@.len() ==> pieces@[k]@ == split_commas(chars@.take(i as int))[k],
            split_commas(chars@.take(i as int)).last() == chars@.subrange(start as int, i as int),
        decreases chars.len() - i,
    {
        proof {
            assert(chars@.take(i + 1).drop_last() =~= chars@.take(i as int));
            assert(chars@.subrange(start as int, i as int).push(chars@[i as int])
                =~= chars@.subrange(start as int, i + 1));
            assert(chars@.subrange(i + 1, i + 1) =~= Seq::<char>::empty());
        }
        if chars[i] == ',' {
            pieces.push(sound_path.substring_char(start, i));
            start = i + 1;
        }
        i += 1;
    }
    proof {
        assert(chars@.take(i as int) =~= chars@);
    }
    pieces.push(sound_path.substring_char(start, i));
    pieces
}

/// Removes the white space at the start and at the end of `s`.
pub fn trim<'a>(s: &'a str) -> (core: &'a str)
    ensures
        core@ == trimmed(s@),
{
    let chars = to_chars(s);
    let mut from: usize = 0;
    proof {
        assert(chars@.skip(0) =~= chars@);
    }
    while from < chars.len() && char_is_whitespace(chars[from])
        invariant
            from <= chars.len(),
            trimmed_start(chars@) == trimmed_start(chars@.skip(from as int)),
        decreases chars.len() - from,
    {
        proof {
            assert(chars@.skip(from as int).drop_first() =~= chars@.skip(from + 1));
        }
        from += 1;
    }
    let mut to: usize = chars.len();
    proof {
        assert(chars@.subrange(from as int, to as int) =~= chars@.skip(from as int));
    }
    while to > from && char_is_whitespace(chars[to - 1])
        invariant
            from <= to <= chars.len(),
            trimmed(chars@) == trimmed_end(chars@.subrange(from as int, to as int)),
        decreases to,
    {
        proof {
            assert(chars@.subrange(from as int, to as int).drop_last() =~= chars@.subrange(
                from as int,
                to - 1,
            ));
        }
        to -= 1;
    }
    s.substring_char(from, to)
}

/// The sound file of a variant: the variant's name behind `res:///`.
pub fn resource_path(name: &str) -> (path: String)
    ensures
        path@ == resource_prefix() + name@,
{
    proof {
        reveal_strlit("res:///");
    }
    let prefix = String::from_str("res:///");
    assert(prefix@ =~= resource_prefix());
    prefix.concat(name)
}

/// Counts the variants that a request names: one more than its commas.
pub fn count_sounds(sound_path: &str) -> (count: usize)
    ensures
        count == variant_count(sound_path@),
        count >= 1,
{
    proof {
        lemma_split_pieces(sound_path@);
    }
    split_sounds(sound_path).len()
}

/// Picks variant number `variant` of a request and gives its sound file.
pub fn select_sound(sound_path: &str, variant: usize) -> (path: String)
    requires
        variant < variant_count(sound_path@),
    ensures
        path@ == sound_resource(sound_path@, variant as int),
{
    let pieces = split_sounds(sound_path);
    resource_path(trim(pieces[variant]))
}

/// No piece of a split holds a comma, and there is one piece more than the
/// text has commas: the pieces are at least one.
pub proof fn lemma_split_pieces(s: Seq<char>)
    ensures
        split_commas(s).len() == s.filter(|c: char| c == ',').len() + 1,
        forall|k: int, j: int|
            0 <= k < split_commas(s).len() && 0 <= j < split_commas(s)[k].len()
                ==> split_commas(s)[k][j] != ',',
    decreases s.len(),
{
    reveal(Seq::filter);
    if s.len() > 0 {
        lemma_split_pieces(s.drop_last());
    }
}

/// Splitting loses nothing: the pieces of a text, joined with commas, are the
/// text.
pub proof fn lemma_split_rejoins(s: Seq<char>)
    ensures
        join_commas(split_commas(s)) == s,
    decreases s.len(),
{
    if s.len() > 0 {
        let before = split_commas(s.drop_last());
        let pieces = split_commas(s);
        lemma_split_rejoins(s.drop_last());
        lemma_split_pieces(s.drop_last());
        assert(s.drop_last().push(s.last()) =~= s);
        if s.last() == ',' {
            assert(pieces.drop_last() =~= before);
            assert(join_commas(pieces) =~= s);
        } else if before.len() == 1 {
            assert(join_commas(pieces) =~= s);
        } else {
            assert(pieces.drop_last() =~= before.drop_last());
            assert(join_commas(pieces) =~= s);
        }
    }
}

/// What trimming leaves is the stretch of the text from its first character
/// that is no white space to its last: all that is cut off is white space,
/// and what is left neither starts nor ends with white space.
pub proof fn lemma_trimmed_core(s: Seq<char>) -> (bounds: (int, int))
    ensures
        0 <= bounds.0 <= bounds.1 <= s.len(),
        trimmed(s) == s.subrange(bounds.0, bounds.1),
        forall|i: int| 0 <= i < bounds.0 ==> is_whitespace(s[i]),
        forall|i: int| bounds.1 <= i < s.len() ==> is_whitespace(s[i]),
        bounds.0 < bounds.1 ==> !is_whitespace(s[bounds.0]) && !is_whitespace(s[bounds.1 - 1]),
{
    let from = lemma_trimmed_start(s);
    let rest = s.skip(from);
    let cut = lemma_trimmed_end(rest);
    assert(rest.take(cut) =~= s.subrange(from, from + cut));
    assert forall|i: int| from + cut <= i < s.len() implies is_whitespace(s[i]) by {
        assert(s[i] == rest[i - from]);
    }
    if cut > 0 {
        assert(rest[0] == s[from]);
        assert(rest[cut - 1] == s[from + cut - 1]);
    }
    (from, from + cut)
}

/// Trimming the start skips a stretch of white space that ends before the
/// first character that is none.
proof fn lemma_trimmed_start(s: Seq<char>) -> (from: int)
    ensures
        0 <= from <= s.len(),
        trimmed_start(s) == s.skip(from),
        forall|i: int| 0 <= i < from ==> is_whitespace(s[i]),
        from < s.len() ==> !is_whitespace(s[from]),
    decreases s.len(),
{
    if s.len() > 0 && is_whitespace(s[0]) {
        let inner = lemma_trimmed_start(s.drop_first());
        assert(s.drop_first().skip(inner) =~= s.skip(inner + 1));
        assert forall|i: int| 0 <= i < inner + 1 implies is_whitespace(s[i]) by {
            if i > 0 {
                assert(s[i] == s.drop_first()[i - 1]);
            }
        }
        inner + 1
    } else {
        assert(s.skip(0) =~= s);
        0
    }
}

/// Trimming the end keeps a stretch from the start that ends behind the last
/// character that is no white space.
proof fn lemma_trimmed_end(s: Seq<char>) -> (to: int)
    ensures
        0 <= to <= s.len(),
        trimmed_end(s) == s.take(to),
        forall|i: int| to <= i < s.len() ==> is_whitespace(s[i]),
        to > 0 ==> !is_whitespace(s[to - 1]),
    decreases s.len(),
{
    if s.len() > 0 && is_whitespace(s.last()) {
        let inner = lemma_trimmed_end(s.drop_last());
        assert(s.drop_last().take(inner) =~= s.take(inner));
        assert forall|i: int| inner <= i < s.len() implies is_whitespace(s[i]) by {
            if i < s.len() - 1 {
                assert(s[i] == s.drop_last()[i]);
            }
        }
        inner
    } else {
        assert(s.take(s.len() as int) =~= s);
        s.len() as int
    }
}

} // verus!
