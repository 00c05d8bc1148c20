//! Hotkey descriptions such as `"Ctrl+Alt+Right"`: which virtual keys they
//! name, and whether they are held given the keys that are down.
use vstd::prelude::*;
use crate::text::{
    ascii_lower_char, ascii_lowercase, ascii_lowered, ascii_upper_char, ascii_uppercase, chars_of,
    is_ascii_text, is_white_space, lower_part, lowered, normalize, spells, strip_spaces, trim,
    trim_end, trim_start, without_spaces,
};

verus! {

/// Virtual key code of either Control key.
pub const VK_CONTROL: i32 = 0x11;
/// Virtual key code of either Shift key.
pub const VK_SHIFT: i32 = 0x10;
/// Virtual key code of either Alt key.
pub const VK_MENU: i32 = 0x12;
/// Virtual key code of the left Alt key.
pub const VK_LMENU: i32 = 0xA4;
/// Virtual key code of the right Alt key.
pub const VK_RMENU: i32 = 0xA5;
/// Virtual key code of the left arrow key.
pub const VK_LEFT: i32 = 0x25;
/// Virtual key code of the up arrow key.
pub const VK_UP: i32 = 0x26;
/// Virtual key code of the right arrow key.
pub const VK_RIGHT: i32 = 0x27;
/// Virtual key code of the down arrow key.
pub const VK_DOWN: i32 = 0x28;
/// Virtual key code of the A key; B to Z follow it in order.
pub const VK_A: i32 = 0x41;

/// The virtual key that a hotkey part names, once lowered and stripped of
/// spaces, if any.
pub open spec fn key_code(name: Seq<char>) -> Option<i32> {
    if name == "ctrl"@ || name == "control"@ {
        Some(VK_CONTROL)
    } else if name == "shift"@ {
        Some(VK_SHIFT)
    } else if name == "alt"@ {
        Some(VK_MENU)
    } else if name == "leftalt"@ || name == "lalt"@ {
        Some(VK_LMENU)
    } else if name == "rightalt"@ || name == "ralt"@ {
        Some(VK_RMENU)
    } else if name == "left"@ {
        Some(VK_LEFT)
    } else if name == "right"@ {
        Some(VK_RIGHT)
    } else if name == "up"@ {
        Some(VK_UP)
    } else if name == "down"@ {
        Some(VK_DOWN)
    } else if name.len() == 1 && 0x61 <= (name[0] as u32) <= 0x7a {
        Some((VK_A + (name[0] as u32 - 0x61)) as i32)
    } else {
        None
    }
}

/// The pieces of `s` between `'+'` signs, as `str::split('+')` yields them
/// (an empty text gives one empty piece).
pub open spec fn split_plus(s: Seq<char>) -> Seq<Seq<char>>
    decreases s.len(),
{
    if s.len() == 0 {
        seq![Seq::empty()]
    } else {
        let prev = split_plus(s.drop_last());
        if s.last() == '+' {
            prev.push(Seq::empty())
        } else {
            prev.update(prev.len() - 1, prev.last().push(s.last()))
        }
    }
}

/// The key codes so far, extended by one more lowered part: a part that
/// is empty once its spaces are removed is skipped, an unknown part spoils
/// the whole hotkey.
pub open spec fn add_lowered(acc: Option<Seq<i32>>, part: Seq<char>) -> Option<Seq<i32>> {
    let name = without_spaces(part);
    if name.len() == 0 {
        acc
    } else {
        match (acc, key_code(name)) {
            (Some(ks), Some(k)) => Some(ks.push(k)),
            _ => None,
        }
    }
}

/// The key codes that the lowered parts name, in order, or `None` if one
/// is unknown.
pub open spec fn codes_of(parts: Seq<Seq<char>>) -> Option<Seq<i32>>
    decreases parts.len(),
{
    if parts.len() == 0 {
        Some(Seq::empty())
    } else {
        add_lowered(codes_of(parts.drop_last()), parts.last())
    }
}

/// The keys that the lowered parts ask for: `None` if they name no key at
/// all or one of them is not a known key name.
pub open spec fn keys_from_lowered(parts: Seq<Seq<char>>) -> Option<Seq<i32>> {
    match codes_of(parts) {
        Some(ks) => if ks.len() > 0 {
            Some(ks)
        } else {
            None
        },
        None => None,
    }
}

/// The parts of the hotkey description `raw`, each trimmed and lower-cased.
pub open spec fn lowered_parts(raw: Seq<char>) -> Seq<Seq<char>> {
    split_plus(raw).map_values(|p: Seq<char>| lowered(p))
}

/// The parts of an ASCII hotkey description, each trimmed and lower-cased
/// by the ASCII case mapping.
pub open spec fn ascii_lowered_parts(raw: Seq<char>) -> Seq<Seq<char>> {
    split_plus(raw).map_values(|p: Seq<char>| ascii_lowered(p))
}

/// The keys that the hotkey description `raw` asks for: `None` if it names
/// no key at all or has a part that is not a known key name.
pub open spec fn hotkey_keys_of(raw: Seq<char>) -> Option<Seq<i32>> {
    keys_from_lowered(lowered_parts(raw))
}

/// Whether the keys `keys` are all among `down` (never, for `None`).
pub open spec fn keys_held(keys: Option<Seq<i32>>, down: Seq<i32>) -> bool {
    match keys {
        Some(ks) => forall|i: int| 0 <= i < ks.len() ==> down.contains(#[trigger] ks[i]),
        None => false,
    }
}

/// Whether the hotkey `raw` is held when exactly the keys `down` are down.
pub open spec fn hotkey_held(raw: Seq<char>, down: Seq<i32>) -> bool {
    keys_held(hotkey_keys_of(raw), down)
}

/// Whether the ASCII hotkey `raw` is held, with ASCII case mapping.
pub open spec fn ascii_hotkey_held(raw: Seq<char>, down: Seq<i32>) -> bool {
    keys_held(keys_from_lowered(ascii_lowered_parts(raw)), down)
}

/// The characters of each text.
pub open spec fn texts(v: Seq<String>) -> Seq<Seq<char>> {
    v.map_values(|s: String| s@)
}

/// The key codes held in an optional vector.
pub open spec fn opt_codes(r: Option<Vec<i32>>) -> Option<Seq<i32>> {
    match r {
        Some(v) => Some(v@),
        None => None,
    }
}

/// Whether one of the parts of `raw` names something once normalized.
pub open spec fn has_key_part(raw: Seq<char>) -> bool {
    exists|i: int| 0 <= i < split_plus(raw).len() && normalize(#[trigger] split_plus(raw)[i]).len() > 0
}

proof fn lemma_split_plus_len(s: Seq<char>)
    ensures
        split_plus(s).len() >= 1,
    decreases s.len(),
{
    if s.len() > 0 {
        lemma_split_plus_len(s.drop_last());
    }
}

/// The key a lowered, space-free part names, if any.
fn key_code_of(name: &Vec<char>) -> (r: Option<i32>)
    ensures
        r == key_code(name@),
{
    if spells(name, "ctrl") || spells(name, "control") {
        Some(VK_CONTROL)
    } else if spells(name, "shift") {
        Some(VK_SHIFT)
    } else if spells(name, "alt") {
        Some(VK_MENU)
    } else if spells(name, "leftalt") || spells(name, "lalt") {
        Some(VK_LMENU)
    } else if spells(name, "rightalt") || spells(name, "ralt") {
        Some(VK_RMENU)
    } else if spells(name, "left") {
        Some(VK_LEFT)
    } else if spells(name, "right") {
        Some(VK_RIGHT)
    } else if spells(name, "up") {
        Some(VK_UP)
    } else if spells(name, "down") {
        Some(VK_DOWN)
    } else if name.len() == 1 && 0x61 <= (name[0] as u32) && (name[0] as u32) <= 0x7a {
        Some(VK_A + ((name[0] as u32 - 0x61) as i32))
    } else {
        None
    }
}

/// The virtual keys that hotkey parts name, given the parts already
/// trimmed and lower-cased: spaces are removed from each, parts left empty
/// are skipped, and `None` comes back where no key is named or a part is no
/// known key name.
pub fn hotkey_keys_from_lowered(parts: &Vec<String>) -> (r: Option<Vec<i32>>)
    ensures
        opt_codes(r) == keys_from_lowered(texts(parts@)),
{
    let mut ok = true;
    let mut codes: Vec<i32> = Vec::new();
    let mut i: usize = 0;
    assert(texts(parts@).subrange(0, 0) =~= Seq::<Seq<char>>::empty());
    while i < parts.len()
        invariant
            i <= parts.len(),
            (if ok {
                Some(codes@)
            } else {
                None::<Seq<i32>>
            }) == codes_of(texts(parts@).subrange(0, i as int)),
        decreases parts.len() - i,
    {
        let ghost before = texts(parts@).subrange(0, i as int);
        assert(texts(parts@).subrange(0, i + 1).drop_last() =~= before);
        assert(texts(parts@).subrange(0, i + 1).last() == parts@[i as int]@);
        let name = strip_spaces(parts[i].as_str());
        if name.len() > 0 && ok {
            match key_code_of(&name) {
                Some(k) => {
                    codes.push(k);
                },
                None => {
                    ok = false;
                },
            }
        }
        i = i + 1;
    }
    assert(texts(parts@).subrange(0, parts.len() as int) =~= texts(parts@));
    if ok && codes.len() > 0 {
        Some(codes)
    } else {
        None
    }
}

/// The virtual keys that the hotkey description `raw` names, in the order
/// written; `None` where it names none or has a part that is no known key.
/// Parts are separated by `'+'`, trimmed, lower-cased and stripped of spaces;
/// parts left empty are skipped. For ASCII text the lower-casing is the
/// ASCII case mapping.
pub fn hotkey_keys(raw: &str) -> (r: Option<Vec<i32>>)
    ensures
        opt_codes(r) == hotkey_keys_of(raw@),
        is_ascii_text(raw@) ==> opt_codes(r) == keys_from_lowered(ascii_lowered_parts(raw@)),
{
    let chars = chars_of(raw);
    let mut cur: Vec<char> = Vec::new();
    let mut lw: Vec<String> = Vec::new();
    let ghost mut done: Seq<Seq<char>> = Seq::empty();
    let mut i: usize = 0;
    assert(chars@.subrange(0, 0) =~= Seq::<char>::empty());
    assert(split_plus(Seq::<char>::empty()) =~= done.push(cur@));
    assert(texts(lw@) =~= done.map_values(|p: Seq<char>| lowered(p)));
    assert(texts(lw@) =~= done.map_values(|p: Seq<char>| ascii_lowered(p)));
    while i < chars.len()
        invariant
            chars@ == raw@,
            i <= chars.len(),
            split_plus(chars@.subrange(0, i as int)) == done.push(cur@),
            texts(lw@) == done.map_values(|p: Seq<char>| lowered(p)),
            is_ascii_text(raw@) ==> texts(lw@) == done.map_values(|p: Seq<char>| ascii_lowered(p)),
            is_ascii_text(raw@) ==> is_ascii_text(cur@),
        decreases chars.len() - i,
    {
        let c = chars[i];
        let ghost prefix = chars@.subrange(0, i as int);
        assert(chars@.subrange(0, i + 1).drop_last() =~= prefix);
        assert(chars@.subrange(0, i + 1).last() == c);
        if c == '+' {
            let l = lower_part(&cur);
            let ghost old_lw = lw@;
            lw.push(l);
            proof {
                lemma_texts_push(old_lw, l);
                lemma_map_push(done, cur@);
                done = done.push(cur@);
            }
            cur = Vec::new();
            assert(cur@ =~= Seq::<char>::empty());
        } else {
            cur.push(c);
            assert(split_plus(chars@.subrange(0, i + 1)) =~= done.push(cur@));
            assert(is_ascii_text(raw@) ==> is_ascii_text(cur@)) by {
                if is_ascii_text(raw@) {
                    assert forall|k: int| 0 <= k < cur@.len() implies (#[trigger] cur@[k] as u32) < 0x80 by {
                        if k < cur@.len() - 1 {
                        } else {
                            assert(cur@[k] == raw@[i as int]);
                        }
                    }
                }
            }
        }
        i = i + 1;
    }
    assert(chars@.subrange(0, chars.len() as int) =~= chars@);
    let l = lower_part(&cur);
    let ghost old_lw = lw@;
    lw.push(l);
    proof {
        lemma_texts_push(old_lw, l);
        lemma_map_push(done, cur@);
    }
    assert(texts(lw@) =~= lowered_parts(raw@));
    assert(is_ascii_text(raw@) ==> texts(lw@) =~= ascii_lowered_parts(raw@));
    hotkey_keys_from_lowered(&lw)
}

proof fn lemma_texts_push(v: Seq<String>, s: String)
    ensures
        texts(v.push(s)) == texts(v).push(s@),
{
    assert(texts(v.push(s)) =~= texts(v).push(s@));
}

proof fn lemma_map_push(done: Seq<Seq<char>>, p: Seq<char>)
    ensures
        done.push(p).map_values(|q: Seq<char>| lowered(q)) == done.map_values(|q: Seq<char>| lowered(q)).push(
            lowered(p),
        ),
        done.push(p).map_values(|q: Seq<char>| ascii_lowered(q)) == done.map_values(
            |q: Seq<char>| ascii_lowered(q),
        ).push(ascii_lowered(p)),
{
    assert(done.push(p).map_values(|q: Seq<char>| lowered(q)) =~= done.map_values(|q: Seq<char>| lowered(q)).push(
        lowered(p),
    ));
    assert(done.push(p).map_values(|q: Seq<char>| ascii_lowered(q)) =~= done.map_values(
        |q: Seq<char>| ascii_lowered(q),
    ).push(ascii_lowered(p)));
}

/// Whether the hotkey described by `raw` is held, given the virtual keys
/// that are down: every key it names must be among them, and a hotkey that
/// names no key, or a key it does not know, is never held.
pub fn hotkey_pressed(raw: &str, keys_down: &Vec<i32>) -> (r: bool)
    ensures
        r == hotkey_held(raw@, keys_down@),
        is_ascii_text(raw@) ==> r == ascii_hotkey_held(raw@, keys_down@),
{
    match hotkey_keys(raw) {
        None => false,
        Some(ks) => {
            let mut i: usize = 0;
            while i < ks.len()
                invariant
                    i <= ks.len(),
                    hotkey_keys_of(raw@) == Some(ks@),
                    is_ascii_text(raw@) ==> keys_from_lowered(ascii_lowered_parts(raw@)) == Some(ks@),
                    forall|j: int| 0 <= j < i ==> keys_down@.contains(#[trigger] ks@[j]),
                decreases ks.len() - i,
            {
                let k = ks[i];
                let mut found = false;
                let mut j: usize = 0;
                while j < keys_down.len()
                    invariant
                        j <= keys_down.len(),
                        found ==> keys_down@.contains(k),
                        !found ==> forall|m: int| 0 <= m < j ==> keys_down@[m] != k,
                    decreases keys_down.len() - j,
                {
                    if keys_down[j] == k {
                        found = true;
                    }
                    j = j + 1;
                }
                if !found {
                    assert(!keys_down@.contains(ks@[i as int]));
                    return false;
                }
                i = i + 1;
            }
            true
        },
    }
}

/// A held hotkey stays held when more keys go down.
pub proof fn hotkey_held_monotone(raw: Seq<char>, down: Seq<i32>, more: Seq<i32>)
    requires
        hotkey_held(raw, down),
        forall|k: i32| down.contains(k) ==> more.contains(k),
    ensures
        hotkey_held(raw, more),
{
    let ks = hotkey_keys_of(raw)->0;
    assert forall|i: int| 0 <= i < ks.len() implies more.contains(#[trigger] ks[i]) by {
        assert(down.contains(ks[i]));
    }
}

proof fn lemma_split_join(s: Seq<char>, t: Seq<char>)
    ensures
        split_plus(s + seq!['+'] + t) == split_plus(s) + split_plus(t),
    decreases t.len(),
{
    let u = s + seq!['+'] + t;
    if t.len() == 0 {
        assert(u =~= s.push('+'));
        assert(u.drop_last() =~= s);
        assert(split_plus(s).push(Seq::empty()) =~= split_plus(s) + split_plus(t));
    } else {
        lemma_split_join(s, t.drop_last());
        lemma_split_plus_len(t.drop_last());
        assert(u.drop_last() =~= s + seq!['+'] + t.drop_last());
        assert(u.last() == t.last());
        let x = split_plus(s);
        let y = split_plus(t.drop_last());
        if t.last() == '+' {
            assert((x + y).push(Seq::empty()) =~= x + y.push(Seq::empty()));
        } else {
            assert((x + y).update(x.len() + y.len() - 1, (x + y).last().push(t.last())) =~= x + y.update(
                y.len() - 1,
                y.last().push(t.last()),
            ));
        }
    }
}

/// Two optional code sequences, one after the other.
pub open spec fn join_codes(a: Option<Seq<i32>>, b: Option<Seq<i32>>) -> Option<Seq<i32>> {
    match (a, b) {
        (Some(x), Some(y)) => Some(x + y),
        _ => None,
    }
}

proof fn lemma_codes_join(x: Seq<Seq<char>>, y: Seq<Seq<char>>)
    ensures
        codes_of(x + y) == join_codes(codes_of(x), codes_of(y)),
    decreases y.len(),
{
    if y.len() == 0 {
        assert(x + y =~= x);
        match codes_of(x) {
            Some(a) => {
                assert(a + Seq::<i32>::empty() =~= a);
            },
            None => {},
        }
    } else {
        lemma_codes_join(x, y.drop_last());
        assert((x + y).drop_last() =~= x + y.drop_last());
        assert((x + y).last() == y.last());
        match (codes_of(x), codes_of(y.drop_last())) {
            (Some(a), Some(b)) => {
                let name = without_spaces(y.last());
                if name.len() > 0 {
                    match key_code(name) {
                        Some(k) => {
                            assert((a + b).push(k) =~= a + b.push(k));
                        },
                        None => {},
                    }
                }
            },
            _ => {},
        }
    }
}

proof fn lemma_codes_named(z: Seq<Seq<char>>, i: int)
    requires
        0 <= i < z.len(),
        without_spaces(z[i]).len() > 0,
    ensures
        codes_of(z) != Some(Seq::<i32>::empty()),
    decreases z.len(),
{
    assert(z.drop_last().len() == z.len() - 1);
    if i < z.len() - 1 {
        assert(z.drop_last()[i] == z[i]);
        lemma_codes_named(z.drop_last(), i);
    } else {
        assert(z.last() == z[i]);
    }
    match codes_of(z.drop_last()) {
        Some(ks) => {
            if without_spaces(z.last()).len() > 0 {
                match key_code(without_spaces(z.last())) {
                    Some(k) => {
                        assert(ks.push(k).len() > 0);
                    },
                    None => {},
                }
            }
        },
        None => {},
    }
}

proof fn lemma_has_key_part(raw: Seq<char>)
    requires
        has_key_part(raw),
    ensures
        codes_of(lowered_parts(raw)) != Some(Seq::<i32>::empty()),
{
    let i = choose|i: int| 0 <= i < split_plus(raw).len() && normalize(#[trigger] split_plus(raw)[i]).len() > 0;
    assert(lowered_parts(raw)[i] == lowered(split_plus(raw)[i]));
    lemma_codes_named(lowered_parts(raw), i);
}

/// Joining two hotkeys with `'+'` asks for the keys of both: the joined
/// hotkey is held exactly when each of the two is. So neither the order of
/// parts nor a repeated part changes whether a hotkey is held. Each of the
/// two must name something (a blank hotkey is never held on its own, but
/// adds nothing to a join).
pub proof fn hotkey_join(a: Seq<char>, b: Seq<char>, down: Seq<i32>)
    requires
        has_key_part(a),
        has_key_part(b),
    ensures
        hotkey_held(a + seq!['+'] + b, down) == (hotkey_held(a, down) && hotkey_held(b, down)),
        hotkey_held(a + seq!['+'] + b, down) == hotkey_held(b + seq!['+'] + a, down),
        hotkey_held(a + seq!['+'] + a, down) == hotkey_held(a, down),
{
    lemma_join_held(a, b, down);
    lemma_join_held(b, a, down);
    lemma_join_held(a, a, down);
}

proof fn lemma_join_held(a: Seq<char>, b: Seq<char>, down: Seq<i32>)
    requires
        has_key_part(a),
        has_key_part(b),
    ensures
        hotkey_held(a + seq!['+'] + b, down) == (hotkey_held(a, down) && hotkey_held(b, down)),
{
    lemma_split_join(a, b);
    let la = lowered_parts(a);
    let lb = lowered_parts(b);
    assert(lowered_parts(a + seq!['+'] + b) =~= la + lb);
    lemma_codes_join(la, lb);
    lemma_has_key_part(a);
    lemma_has_key_part(b);
    match (codes_of(la), codes_of(lb)) {
        (Some(x), Some(y)) => {
            assert(x.len() > 0) by {
                if x.len() == 0 {
                    assert(x =~= Seq::<i32>::empty());
                }
            }
            assert(y.len() > 0) by {
                if y.len() == 0 {
                    assert(y =~= Seq::<i32>::empty());
                }
            }
            let j = x + y;
            if hotkey_held(a, down) && hotkey_held(b, down) {
                assert forall|i: int| 0 <= i < j.len() implies down.contains(#[trigger] j[i]) by {
                    if i < x.len() {
                        assert(j[i] == x[i]);
                    } else {
                        assert(j[i] == y[i - x.len()]);
                    }
                }
            }
            if hotkey_held(a + seq!['+'] + b, down) {
                assert forall|i: int| 0 <= i < x.len() implies down.contains(#[trigger] x[i]) by {
                    assert(j[i] == x[i]);
                }
                assert forall|i: int| 0 <= i < y.len() implies down.contains(#[trigger] y[i]) by {
                    assert(j[i + x.len()] == y[i]);
                }
            }
        },
        _ => {},
    }
}

/// A map of characters that keeps `'+'`, white space and the ASCII lower
/// case of every character.
pub open spec fn case_only(f: spec_fn(char) -> char) -> bool {
    forall|c: char|
        #![trigger f(c)]
        ((f(c) == '+') == (c == '+')) && (is_white_space(f(c)) == is_white_space(c)) && (
        ascii_lower_char(f(c)) == ascii_lower_char(c)) && ((c as u32) < 0x80 ==> (f(c) as u32)
            < 0x80)
}

proof fn lemma_split_map(s: Seq<char>, f: spec_fn(char) -> char)
    requires
        case_only(f),
    ensures
        split_plus(s.map_values(f)) =~~= split_plus(s).map_values(|p: Seq<char>| p.map_values(f)),
    decreases s.len(),
{
    if s.len() > 0 {
        lemma_split_map(s.drop_last(), f);
        lemma_split_plus_len(s.drop_last());
        assert(s.map_values(f).drop_last() =~= s.drop_last().map_values(f));
        assert(s.map_values(f).last() == f(s.last()));
        let prev = split_plus(s.drop_last());
        if s.last() != '+' {
            assert(prev.last().push(s.last()).map_values(f) =~= prev.last().map_values(f).push(
                f(s.last()),
            ));
        }
    }
}

proof fn lemma_trim_start_map(p: Seq<char>, f: spec_fn(char) -> char)
    requires
        case_only(f),
    ensures
        trim_start(p.map_values(f)) =~= trim_start(p).map_values(f),
    decreases p.len(),
{
    if p.len() > 0 {
        assert(p.map_values(f)[0] == f(p[0]));
        if is_white_space(p[0]) {
            assert(p.map_values(f).drop_first() =~= p.drop_first().map_values(f));
            lemma_trim_start_map(p.drop_first(), f);
        }
    }
}

proof fn lemma_trim_end_map(p: Seq<char>, f: spec_fn(char) -> char)
    requires
        case_only(f),
    ensures
        trim_end(p.map_values(f)) =~= trim_end(p).map_values(f),
    decreases p.len(),
{
    if p.len() > 0 {
        assert(p.map_values(f).last() == f(p.last()));
        if is_white_space(p.last()) {
            assert(p.map_values(f).drop_last() =~= p.drop_last().map_values(f));
            lemma_trim_end_map(p.drop_last(), f);
        }
    }
}

proof fn lemma_ascii_lowered_map(p: Seq<char>, f: spec_fn(char) -> char)
    requires
        case_only(f),
    ensures
        ascii_lowered(p.map_values(f)) == ascii_lowered(p),
{
    lemma_trim_start_map(p, f);
    lemma_trim_end_map(trim_start(p), f);
    let q = trim(p);
    assert(trim(p.map_values(f)) =~= q.map_values(f));
    assert(ascii_lowercase(q.map_values(f)) =~= ascii_lowercase(q)) by {
        assert forall|i: int| 0 <= i < q.len() implies ascii_lowercase(q.map_values(f))[i]
            == ascii_lowercase(q)[i] by {
            assert(f(q[i]) == q.map_values(f)[i]);
        }
    }
}

proof fn lemma_ascii_parts_map(raw: Seq<char>, f: spec_fn(char) -> char)
    requires
        case_only(f),
    ensures
        ascii_lowered_parts(raw.map_values(f)) =~= ascii_lowered_parts(raw),
{
    lemma_split_map(raw, f);
    let sp = split_plus(raw);
    assert forall|i: int| 0 <= i < sp.len() implies ascii_lowered_parts(raw.map_values(f))[i]
        == ascii_lowered_parts(raw)[i] by {
        assert(split_plus(raw.map_values(f))[i] =~= sp[i].map_values(f));
        lemma_ascii_lowered_map(sp[i], f);
    }
}

proof fn lemma_case_maps()
    ensures
        case_only(|c: char| ascii_upper_char(c)),
        case_only(|c: char| ascii_lower_char(c)),
{
}

/// ASCII hotkeys ignore case: writing the description in capitals or in
/// small letters does not change which keys it names nor whether it is held.
pub proof fn hotkey_ascii_case_insensitive(raw: Seq<char>, down: Seq<i32>)
    requires
        is_ascii_text(raw),
    ensures
        is_ascii_text(ascii_uppercase(raw)),
        is_ascii_text(ascii_lowercase(raw)),
        keys_from_lowered(ascii_lowered_parts(ascii_uppercase(raw))) == keys_from_lowered(
            ascii_lowered_parts(raw),
        ),
        keys_from_lowered(ascii_lowered_parts(ascii_lowercase(raw))) == keys_from_lowered(
            ascii_lowered_parts(raw),
        ),
        ascii_hotkey_held(ascii_uppercase(raw), down) == ascii_hotkey_held(raw, down),
        ascii_hotkey_held(ascii_lowercase(raw), down) == ascii_hotkey_held(raw, down),
{
    lemma_case_maps();
    let up = |c: char| ascii_upper_char(c);
    let lo = |c: char| ascii_lower_char(c);
    assert(ascii_uppercase(raw) =~= raw.map_values(up));
    assert(ascii_lowercase(raw) =~= raw.map_values(lo));
    lemma_ascii_parts_map(raw, up);
    lemma_ascii_parts_map(raw, lo);
    assert forall|i: int| 0 <= i < raw.len() implies (#[trigger] ascii_uppercase(raw)[i] as u32)
        < 0x80 by {
        assert(up(raw[i]) == ascii_uppercase(raw)[i]);
    }
    assert forall|i: int| 0 <= i < raw.len() implies (#[trigger] ascii_lowercase(raw)[i] as u32)
        < 0x80 by {
        assert(lo(raw[i]) == ascii_lowercase(raw)[i]);
    }
}

/// The key-name table: each arrow name gives its arrow key and no other
/// name does (left 0x25, up 0x26, right 0x27, down 0x28); the modifier
/// names give the modifier keys and only they do (Control 0x11 as "ctrl"
/// or "control", Shift 0x10, Alt 0x12, left Alt 0xA4 as "leftalt" or
/// "lalt", right Alt 0xA5 as "rightalt" or "ralt"); a single small letter
/// gives its letter key, from 0x41 for "a" to 0x5A for "z".
pub proof fn key_names_give_their_keys(n: Seq<char>)
    ensures
        key_code(n) == Some(0x25i32) <==> n == "left"@,
        key_code(n) == Some(0x26i32) <==> n == "up"@,
        key_code(n) == Some(0x27i32) <==> n == "right"@,
        key_code(n) == Some(0x28i32) <==> n == "down"@,
        key_code(n) == Some(0x11i32) <==> (n == "ctrl"@ || n == "control"@),
        key_code(n) == Some(0x10i32) <==> n == "shift"@,
        key_code(n) == Some(0x12i32) <==> n == "alt"@,
        key_code(n) == Some(0xA4i32) <==> (n == "leftalt"@ || n == "lalt"@),
        key_code(n) == Some(0xA5i32) <==> (n == "rightalt"@ || n == "ralt"@),
        n.len() == 1 && 'a' <= n[0] <= 'z' ==> key_code(n) == Some((0x41 + (n[0] as u32 - 'a' as u32)) as i32),
        n.len() == 1 && 0x61 <= (n[0] as u32) <= 0x7a ==> (key_code(n) matches Some(c) && 0x41 <= c <= 0x5a),
        key_code(n) is Some ==> n.len() > 0,
{
    reveal_strlit("ctrl");
    reveal_strlit("control");
    reveal_strlit("shift");
    reveal_strlit("alt");
    reveal_strlit("leftalt");
    reveal_strlit("lalt");
    reveal_strlit("rightalt");
    reveal_strlit("ralt");
    reveal_strlit("left");
    reveal_strlit("right");
    reveal_strlit("up");
    reveal_strlit("down");
    if n.len() == 1 && 0x61 <= (n[0] as u32) <= 0x7a {
        let c = (VK_A + (n[0] as u32 - 0x61)) as i32;
        assert(0x41 <= c <= 0x5a);
        assert(key_code(n) == Some(c));
    }
    let names = seq![
        "ctrl"@, "control"@, "shift"@, "alt"@, "leftalt"@, "lalt"@, "rightalt"@, "ralt"@, "left"@,
        "right"@, "up"@, "down"@,
    ];
    assert forall|a: int, b: int| 0 <= a < b < names.len() implies names[a] != names[b] by {
        if names[a].len() == names[b].len() {
            if names[a][0] == names[b][0] {
                assert(names[a][1] != names[b][1]);
            } else {
                assert(names[a][0] != names[b][0]);
            }
        }
    }
    assert(names[8] != names[5]);
}

/// Distinct key names give distinct keys, except the spellings of the
/// same key ("ctrl" and "control", "leftalt" and "lalt", "rightalt" and
/// "ralt").
pub proof fn distinct_key_names_give_distinct_keys(n: Seq<char>, m: Seq<char>)
    requires
        key_code(n) is Some,
        key_code(n) == key_code(m),
    ensures
        n == m || (n == "ctrl"@ || n == "control"@) && (m == "ctrl"@ || m == "control"@) || (n == "leftalt"@
            || n == "lalt"@) && (m == "leftalt"@ || m == "lalt"@) || (n == "rightalt"@ || n == "ralt"@) && (m
            == "rightalt"@ || m == "ralt"@),
{
    key_names_give_their_keys(n);
    key_names_give_their_keys(m);
    let k = key_code(n)->0;
    let letter_n = n.len() == 1 && 0x61 <= (n[0] as u32) <= 0x7a;
    let letter_m = m.len() == 1 && 0x61 <= (m[0] as u32) <= 0x7a;
    if letter_n {
        assert(0x41 <= k <= 0x5a);
    }
    if letter_m {
        assert(0x41 <= k <= 0x5a);
    }
    if letter_n && letter_m {
        assert(key_code(n) == Some((VK_A + (n[0] as u32 - 0x61)) as i32));
        assert(key_code(m) == Some((VK_A + (m[0] as u32 - 0x61)) as i32));
        assert(n[0] as u32 == m[0] as u32);
        vstd::utf8::char_u32_cast(n[0], n[0] as u32);
        vstd::utf8::char_u32_cast(m[0], m[0] as u32);
        assert(n[0] == m[0]);
        assert(n =~= m);
    } else if !letter_n && !letter_m {
        assert(k == 0x10 || k == 0x11 || k == 0x12 || k == 0xA4 || k == 0xA5 || k == 0x25 || k == 0x26 || k
            == 0x27 || k == 0x28);
    } else if letter_n {
        assert(k == 0x10 || k == 0x11 || k == 0x12 || k == 0xA4 || k == 0xA5 || k == 0x25 || k == 0x26 || k
            == 0x27 || k == 0x28);
    } else {
        assert(k == 0x10 || k == 0x11 || k == 0x12 || k == 0xA4 || k == 0xA5 || k == 0x25 || k == 0x26 || k
            == 0x27 || k == 0x28);
    }
}

/// Whether `n` is a key name as written in small letters: not empty, and
/// every character a small ASCII letter.
pub open spec fn small_word(n: Seq<char>) -> bool {
    n.len() > 0 && forall|j: int| 0 <= j < n.len() ==> 0x61 <= (#[trigger] n[j] as u32) <= 0x7a
}

proof fn lemma_small_word_parts(n: Seq<char>)
    requires
        forall|j: int| 0 <= j < n.len() ==> 0x61 <= (#[trigger] n[j] as u32) <= 0x7a,
    ensures
        split_plus(n) == seq![n],
        without_spaces(n) == n,
    decreases n.len(),
{
    if n.len() > 0 {
        let m = n.drop_last();
        assert forall|j: int| 0 <= j < m.len() implies 0x61 <= (#[trigger] m[j] as u32) <= 0x7a by {
            assert(m[j] == n[j]);
        }
        lemma_small_word_parts(m);
        assert(n.last() == n[n.len() - 1]);
        assert(n.last() != '+');
        assert(n.last() != ' ');
        assert(m.push(n.last()) =~= n);
        assert(split_plus(m) == seq![m]);
        assert(split_plus(m).last() == m);
        assert(split_plus(m).update(0, n) =~= seq![n]);
    } else {
        assert(n =~= Seq::<char>::empty());
    }
}

proof fn lemma_small_word_lowered(n: Seq<char>)
    requires
        small_word(n),
    ensures
        ascii_lowered(n) == n,
        without_spaces(n) == n,
        split_plus(n) == seq![n],
{
    lemma_small_word_parts(n);
    assert(!is_white_space(n[0]));
    assert(trim_start(n) == n);
    assert(n.last() == n[n.len() - 1]);
    assert(!is_white_space(n.last()));
    assert(trim_end(n) == n);
    assert(ascii_lowercase(n) =~= n);
}

/// A key name written in small letters, on its own or after a `'+'`,
/// adds its key at the end of what the description names before it; a
/// name that is no key spoils the whole description. With the key-name
/// table this pins what every ASCII description names: "ctrl+alt+left"
/// names Control, Alt and the left arrow, in that order.
pub proof fn key_name_adds_its_key(a: Seq<char>, n: Seq<char>)
    requires
        small_word(n),
    ensures
        keys_from_lowered(ascii_lowered_parts(n)) == (match key_code(n) {
            Some(k) => Some(seq![k]),
            None => None::<Seq<i32>>,
        }),
        keys_from_lowered(ascii_lowered_parts(a + seq!['+'] + n)) == (match (
            codes_of(ascii_lowered_parts(a)),
            key_code(n),
        ) {
            (Some(ks), Some(k)) => Some(ks.push(k)),
            _ => None::<Seq<i32>>,
        }),
{
    lemma_small_word_lowered(n);
    let f = |p: Seq<char>| ascii_lowered(p);
    assert(ascii_lowered_parts(n) =~= seq![n]);
    assert(seq![n].drop_last() =~= Seq::<Seq<char>>::empty());
    assert(codes_of(seq![n].drop_last()) == Some(Seq::<i32>::empty()));
    assert(seq![n].last() == n);
    assert(codes_of(seq![n]) == add_lowered(Some(Seq::<i32>::empty()), n));
    match key_code(n) {
        Some(k) => {
            assert(Seq::<i32>::empty().push(k) =~= seq![k]);
        },
        None => {},
    }
    lemma_split_join(a, n);
    let x = ascii_lowered_parts(a);
    assert(ascii_lowered_parts(a + seq!['+'] + n) =~= x.push(n));
    assert(x.push(n).drop_last() =~= x);
    assert(codes_of(x.push(n)) == add_lowered(codes_of(x), n));
}

/// A hotkey is held exactly when every key it names is down: one named key
/// that is up is enough to make it not held, whatever else is down; and a
/// description that names no key, or a key it does not know, is never held.
pub proof fn hotkey_held_needs_every_key(raw: Seq<char>, down: Seq<i32>)
    ensures
        hotkey_keys_of(raw) is None ==> !hotkey_held(raw, down),
        hotkey_keys_of(raw) matches Some(ks) ==> (hotkey_held(raw, down) <==> forall|j: int|
            0 <= j < ks.len() ==> down.contains(#[trigger] ks[j])),
        hotkey_keys_of(raw) matches Some(ks) ==> forall|j: int|
            0 <= j < ks.len() && !down.contains(#[trigger] ks[j]) ==> !hotkey_held(raw, down),
{
}

} // verus!
