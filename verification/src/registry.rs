//! Model of the host-global configuration store, and identifier formatting.
//!
//! The host discovers extensions through key/value entries in its global
//! configuration store.  `RegistryStore` models that store as a finite map
//! from key paths to string values; the unverified shell mirrors every
//! operation performed here onto the real store.  `format_guid` renders a
//! 128-bit extension identifier in its canonical braced, hyphenated,
//! lower-case hexadecimal form, which is both the class key suffix and the
//! slot entry's value.

use vstd::prelude::*;

verus! {

/// The hexadecimal digit character for a value in `0 ..= 15`.
pub open spec fn hex_digit_char(d: int) -> char {
    if d == 0 {
        '0'
    } else if d == 1 {
        '1'
    } else if d == 2 {
        '2'
    } else if d == 3 {
        '3'
    } else if d == 4 {
        '4'
    } else if d == 5 {
        '5'
    } else if d == 6 {
        '6'
    } else if d == 7 {
        '7'
    } else if d == 8 {
        '8'
    } else if d == 9 {
        '9'
    } else if d == 10 {
        'a'
    } else if d == 11 {
        'b'
    } else if d == 12 {
        'c'
    } else if d == 13 {
        'd'
    } else if d == 14 {
        'e'
    } else {
        'f'
    }
}

/// The low `n` hexadecimal digits of `v`, most significant first.
pub open spec fn hex_chars(v: u128, n: nat) -> Seq<char>
    decreases n,
{
    if n == 0 {
        Seq::empty()
    } else {
        hex_chars(v / 16, (n - 1) as nat).push(hex_digit_char((v % 16) as int))
    }
}

/// The canonical text of a 128-bit identifier: braces around five
/// hyphen-separated groups of 8, 4, 4, 4 and 12 lower-case hex digits.
pub open spec fn guid_chars(g: u128) -> Seq<char> {
    seq!['{'] + hex_chars(g >> 96, 8) + seq!['-'] + hex_chars(g >> 80, 4) + seq!['-'] + hex_chars(
        g >> 64,
        4,
    ) + seq!['-'] + hex_chars(g >> 48, 4) + seq!['-'] + hex_chars(g, 12) + seq!['}']
}

fn hex_digit_str(d: u128) -> (r: &'static str)
    requires
        d < 16,
    ensures
        r@ == seq![hex_digit_char(d as int)],
{
    if d == 0 {
        proof {
            reveal_strlit("0");
            assert("0"@ =~= seq![hex_digit_char(0)]);
        }
        "0"
    } else if d == 1 {
        proof {
            reveal_strlit("1");
            assert("1"@ =~= seq![hex_digit_char(1)]);
        }
        "1"
    } else if d == 2 {
        proof {
            reveal_strlit("2");
            assert("2"@ =~= seq![hex_digit_char(2)]);
        }
        "2"
    } else if d == 3 {
        proof {
            reveal_strlit("3");
            assert("3"@ =~= seq![hex_digit_char(3)]);
        }
        "3"
    } else if d == 4 {
        proof {
            reveal_strlit("4");
            assert("4"@ =~= seq![hex_digit_char(4)]);
        }
        "4"
    } else if d == 5 {
        proof {
            reveal_strlit("5");
            assert("5"@ =~= seq![hex_digit_char(5)]);
        }
        "5"
    } else if d == 6 {
        proof {
            reveal_strlit("6");
            assert("6"@ =~= seq![hex_digit_char(6)]);
        }
        "6"
    } else if d == 7 {
        proof {
            reveal_strlit("7");
            assert("7"@ =~= seq![hex_digit_char(7)]);
        }
        "7"
    } else if d == 8 {
        proof {
            reveal_strlit("8");
            assert("8"@ =~= seq![hex_digit_char(8)]);
        }
        "8"
    } else if d == 9 {
        proof {
            reveal_strlit("9");
            assert("9"@ =~= seq![hex_digit_char(9)]);
        }
        "9"
    } else if d == 10 {
        proof {
            reveal_strlit("a");
            assert("a"@ =~= seq![hex_digit_char(10)]);
        }
        "a"
    } else if d == 11 {
        proof {
            reveal_strlit("b");
            assert("b"@ =~= seq![hex_digit_char(11)]);
        }
        "b"
    } else if d == 12 {
        proof {
            reveal_strlit("c");
            assert("c"@ =~= seq![hex_digit_char(12)]);
        }
        "c"
    } else if d == 13 {
        proof {
            reveal_strlit("d");
            assert("d"@ =~= seq![hex_digit_char(13)]);
        }
        "d"
    } else if d == 14 {
        proof {
            reveal_strlit("e");
            assert("e"@ =~= seq![hex_digit_char(14)]);
        }
        "e"
    } else {
        proof {
            reveal_strlit("f");
            assert("f"@ =~= seq![hex_digit_char(15)]);
        }
        "f"
    }
}

fn append_hex(s: &mut String, v: u128, n: u32)
    ensures
        final(s)@ == old(s)@ + hex_chars(v, n as nat),
    decreases n,
{
    if n == 0 {
        proof {
            assert(old(s)@ + hex_chars(v, 0) =~= old(s)@);
        }
    } else {
        append_hex(s, v / 16, n - 1);
        let digit = hex_digit_str(v % 16);
        s.append(digit);
        proof {
            assert(old(s)@ + hex_chars(v / 16, (n - 1) as nat) + seq![
                hex_digit_char((v % 16) as int),
            ] =~= old(s)@ + hex_chars(v, n as nat));
        }
    }
}

/// Renders `g` in its canonical braced hexadecimal form.
pub fn format_guid(g: u128) -> (r: String)
    ensures
        r@ == guid_chars(g),
{
    let mut s = String::from_str("{");
    append_hex(&mut s, g >> 96, 8);
    s.append("-");
    append_hex(&mut s, g >> 80, 4);
    s.append("-");
    append_hex(&mut s, g >> 64, 4);
    s.append("-");
    append_hex(&mut s, g >> 48, 4);
    s.append("-");
    append_hex(&mut s, g, 12);
    s.append("}");
    proof {
        reveal_strlit("{");
        reveal_strlit("-");
        reveal_strlit("}");
        assert(s@ =~= guid_chars(g));
    }
    s
}

/// The map that a sequence of key/value entries denotes; a later entry for
/// the same key overrides an earlier one.
spec fn map_of(s: Seq<(String, String)>) -> Map<Seq<char>, Seq<char>>
    decreases s.len(),
{
    if s.len() == 0 {
        Map::empty()
    } else {
        map_of(s.drop_last()).insert(s.last().0@, s.last().1@)
    }
}

/// The entries of `s` whose key is not `k`, in order.
spec fn entries_without(s: Seq<(String, String)>, k: Seq<char>) -> Seq<(String, String)>
    decreases s.len(),
{
    if s.len() == 0 {
        Seq::empty()
    } else if s.last().0@ == k {
        entries_without(s.drop_last(), k)
    } else {
        entries_without(s.drop_last(), k).push(s.last())
    }
}

/// The value of the last entry for key `k`, if any.
spec fn last_value_of(s: Seq<(String, String)>, k: Seq<char>) -> Option<Seq<char>>
    decreases s.len(),
{
    if s.len() == 0 {
        Option::None
    } else if s.last().0@ == k {
        Option::Some(s.last().1@)
    } else {
        last_value_of(s.drop_last(), k)
    }
}

proof fn lemma_map_of_without(s: Seq<(String, String)>, k: Seq<char>)
    ensures
        map_of(entries_without(s, k)) =~= map_of(s).remove(k),
    decreases s.len(),
{
    if s.len() == 0 {
        assert(map_of(entries_without(s, k)) =~= map_of(s).remove(k));
    } else {
        lemma_map_of_without(s.drop_last(), k);
        if s.last().0@ == k {
            assert(map_of(s).remove(k) =~= map_of(s.drop_last()).remove(k));
        } else {
            let w = entries_without(s.drop_last(), k);
            assert(entries_without(s, k) == w.push(s.last()));
            assert(w.push(s.last()).drop_last() =~= w);
            assert(w.push(s.last()).last() == s.last());
            assert(map_of(entries_without(s, k)) =~= map_of(
                entries_without(s.drop_last(), k),
            ).insert(s.last().0@, s.last().1@));
            assert(map_of(s).remove(k) =~= map_of(s.drop_last()).remove(k).insert(
                s.last().0@,
                s.last().1@,
            ));
        }
    }
}

proof fn lemma_map_of_last_value(s: Seq<(String, String)>, k: Seq<char>)
    ensures
        map_of(s).contains_key(k) <==> last_value_of(s, k) is Some,
        match last_value_of(s, k) {
            Option::Some(v) => map_of(s).contains_key(k) && map_of(s)[k] == v,
            Option::None => !map_of(s).contains_key(k),
        },
    decreases s.len(),
{
    if s.len() > 0 {
        lemma_map_of_last_value(s.drop_last(), k);
    }
}

/// The host-global configuration store, as a map from key paths to values.
///
/// The unverified shell applies the same writes and deletions to the real
/// store that the verified code applies to a value of this type.
pub struct RegistryStore {
    entries: Vec<(String, String)>,
}

impl View for RegistryStore {
    type V = Map<Seq<char>, Seq<char>>;

    closed spec fn view(&self) -> Map<Seq<char>, Seq<char>> {
        map_of(self.entries@)
    }
}

fn entries_without_key(entries: &Vec<(String, String)>, key: &String) -> (r: Vec<(String, String)>)
    ensures
        r@ == entries_without(entries@, key@),
{
    let mut kept: Vec<(String, String)> = Vec::new();
    let n = entries.len();
    let mut i: usize = 0;
    while i < n
        invariant
            i <= n,
            n == entries.len(),
            kept@ == entries_without(entries@.take(i as int), key@),
        decreases n - i,
    {
        let pair = &entries[i];
        proof {
            assert(entries@.take(i + 1).drop_last() =~= entries@.take(i as int));
            assert(entries@.take(i + 1).last() == entries@[i as int]);
        }
        if !(pair.0 == *key) {
            kept.push((pair.0.clone(), pair.1.clone()));
            proof {
                assert((pair.0, pair.1) == entries@[i as int]);
            }
        }
        i = i + 1;
    }
    proof {
        assert(entries@.take(n as int) =~= entries@);
    }
    kept
}

impl RegistryStore {
    /// An empty configuration store.
    pub fn new() -> (r: RegistryStore)
        ensures
            r@ == Map::<Seq<char>, Seq<char>>::empty(),
    {
        RegistryStore { entries: Vec::new() }
    }

    /// Writes `value` under `key`, creating the entry or overwriting it.
    pub fn set_value(&mut self, key: String, value: String)
        ensures
            final(self)@ == old(self)@.insert(key@, value@),
    {
        let kept = entries_without_key(&self.entries, &key);
        self.entries = kept;
        proof {
            lemma_map_of_without(old(self).entries@, key@);
        }
        let ghost before = self.entries@;
        self.entries.push((key, value));
        proof {
            assert(self.entries@.drop_last() =~= before);
            assert(old(self)@.remove(key@).insert(key@, value@) =~= old(self)@.insert(
                key@,
                value@,
            ));
        }
    }

    /// Deletes every entry under `key`; absent keys are left as they are.
    pub fn delete_value(&mut self, key: &String)
        ensures
            final(self)@ == old(self)@.remove(key@),
    {
        let kept = entries_without_key(&self.entries, key);
        self.entries = kept;
        proof {
            lemma_map_of_without(old(self).entries@, key@);
        }
    }

    /// Reads the value stored under `key`, if any.
    pub fn get_value(&self, key: &String) -> (r: Option<String>)
        ensures
            match r {
                Option::Some(v) => self@.contains_key(key@) && v@ == self@[key@],
                Option::None => !self@.contains_key(key@),
            },
    {
        let mut i: usize = self.entries.len();
        proof {
            assert(self.entries@.take(i as int) =~= self.entries@);
        }
        while i > 0
            invariant
                i <= self.entries.len(),
                last_value_of(self.entries@, key@) == last_value_of(
                    self.entries@.take(i as int),
                    key@,
                ),
            decreases i,
        {
            let j = i - 1;
            let pair = &self.entries[j];
            proof {
                assert(self.entries@.take(j + 1).drop_last() =~= self.entries@.take(j as int));
                assert(self.entries@.take(j + 1).last() == self.entries@[j as int]);
            }
            if pair.0 == *key {
                proof {
                    lemma_map_of_last_value(self.entries@, key@);
                }
                return Option::Some(pair.1.clone());
            }
            i = j;
        }
        proof {
            assert(self.entries@.take(0) =~= Seq::<(String, String)>::empty());
            lemma_map_of_last_value(self.entries@, key@);
        }
        Option::None
    }
}

} // verus!
