//! Reading a runtime descriptor back into the values it was rendered from.

use vstd::prelude::*;
use vstd::string::*;
use crate::bundle::{descriptor_text, nl, BuildConfig};
use crate::text::chars_of;

verus! {

/// The values that a runtime descriptor records about a build.
#[derive(Clone, Debug)]
pub struct RuntimeDescriptor {
    pub version: String,
    pub app_name: String,
    pub app_version: String,
    pub output_dir: String,
}

/// The index of the first line break at or after `i`, or the length of `s`.
pub open spec fn line_end(s: Seq<char>, i: int) -> int
    decreases s.len() - i,
{
    if i < 0 || i >= s.len() {
        s.len() as int
    } else if s[i] == '\n' {
        i
    } else {
        line_end(s, i + 1)
    }
}

/// At `pos` stands `key`, then a value, then a line break: the value and the
/// position after the break.
pub open spec fn field_at(s: Seq<char>, pos: int, key: Seq<char>) -> Option<(Seq<char>, int)> {
    if 0 <= pos && pos + key.len() <= s.len() && s.subrange(pos, pos + key.len()) == key {
        let e = line_end(s, pos + key.len());
        if e < s.len() {
            Some((s.subrange(pos + key.len(), e), e + 1))
        } else {
            None
        }
    } else {
        None
    }
}

/// The version, application name, application version and output directory
/// that the descriptor `s` records, in that order.
pub open spec fn descriptor_fields(s: Seq<char>) -> Option<(Seq<char>, Seq<char>, Seq<char>, Seq<char>)> {
    match field_at(s, 0, "[PHP Runtime Configuration]"@) {
        Some((h, after_header)) => if h.len() != 0 {
            None
        } else {
            match field_at(s, after_header, "version = "@) {
                Some((v, after_version)) => match field_at(s, after_version, "app_name = "@) {
                    Some((n, after_name)) => match field_at(s, after_name, "app_version = "@) {
                        Some((a, after_app_version)) => match field_at(s, after_app_version, "output_dir = "@) {
                            Some((o, _)) => Some((v, n, a, o)),
                            None => None,
                        },
                        None => None,
                    },
                    None => None,
                },
                None => None,
            }
        },
        None => None,
    }
}

fn line_end_exec(cs: &Vec<char>, from: usize) -> (r: usize)
    requires
        from <= cs@.len(),
    ensures
        r == line_end(cs@, from as int),
        from <= r <= cs@.len(),
{
    let mut i: usize = from;
    let len: usize = cs.len();
    while i < len
        invariant
            from <= i <= len,
            len == cs@.len(),
            line_end(cs@, from as int) == line_end(cs@, i as int),
        decreases len - i,
    {
        if cs[i] == '\n' {
            return i;
        }
        i = i + 1;
    }
    i
}

fn key_at(cs: &Vec<char>, pos: usize, key: &Vec<char>) -> (r: bool)
    ensures
        r == (pos + key@.len() <= cs@.len() && cs@.subrange(pos as int, pos + key@.len()) == key@),
{
    let len: usize = cs.len();
    if pos > len || key.len() > len - pos {
        return false;
    }
    let mut k: usize = 0;
    while k < key.len()
        invariant
            pos + key@.len() <= cs@.len(),
            len == cs@.len(),
            k <= key@.len(),
            cs@.subrange(pos as int, pos + k) == key@.subrange(0, k as int),
        decreases key@.len() - k,
    {
        if cs[pos + k] != key[k] {
            assert(cs@.subrange(pos as int, pos + key@.len())[k as int] != key@[k as int]);
            return false;
        }
        assert(cs@.subrange(pos as int, pos + k + 1) =~= cs@.subrange(pos as int, pos + k).push(cs@[pos + k]));
        assert(key@.subrange(0, k + 1) =~= key@.subrange(0, k as int).push(key@[k as int]));
        k = k + 1;
    }
    assert(key@.subrange(0, k as int) =~= key@);
    true
}

fn field_exec(text: &str, cs: &Vec<char>, pos: usize, key: &str) -> (r: Option<(String, usize)>)
    requires
        cs@ == text@,
    ensures
        match field_at(cs@, pos as int, key@) {
            Some((v, p)) => r is Some && r->Some_0.0@ == v && r->Some_0.1 == p,
            None => r is None,
        },
{
    let k = chars_of(key);
    let n: usize = cs.len();
    if !key_at(cs, pos, &k) {
        return None;
    }
    let start: usize = pos + k.len();
    let e = line_end_exec(cs, start);
    if e >= cs.len() {
        return None;
    }
    let v = String::from_str(text.substring_char(start, e));
    Some((v, e + 1))
}

/// Reads the four recorded values back from a runtime descriptor; `None`
/// when the text does not have the descriptor's shape.
pub fn parse_runtime_descriptor(text: &str) -> (r: Option<RuntimeDescriptor>)
    ensures
        match descriptor_fields(text@) {
            Some((v, n, a, o)) => r is Some && r->Some_0.version@ == v && r->Some_0.app_name@ == n
                && r->Some_0.app_version@ == a && r->Some_0.output_dir@ == o,
            None => r is None,
        },
{
    let cs = chars_of(text);
    let (h, after_header) = match field_exec(text, &cs, 0, "[PHP Runtime Configuration]") {
        Some(x) => x,
        None => return None,
    };
    if h.as_str().unicode_len() != 0 {
        return None;
    }
    let (version, after_version) = match field_exec(text, &cs, after_header, "version = ") {
        Some(x) => x,
        None => return None,
    };
    let (app_name, after_name) = match field_exec(text, &cs, after_version, "app_name = ") {
        Some(x) => x,
        None => return None,
    };
    let (app_version, after_app_version) = match field_exec(text, &cs, after_name, "app_version = ") {
        Some(x) => x,
        None => return None,
    };
    let (output_dir, _) = match field_exec(text, &cs, after_app_version, "output_dir = ") {
        Some(x) => x,
        None => return None,
    };
    Some(RuntimeDescriptor { version, app_name, app_version, output_dir })
}

/// `s` holds no line break.
pub open spec fn single_line(s: Seq<char>) -> bool {
    forall|i: int| 0 <= i < s.len() ==> s[i] != '\n'
}

proof fn lemma_line_end_at(s: Seq<char>, i: int, k: int)
    requires
        0 <= i <= k < s.len(),
        s[k] == '\n',
        forall|j: int| i <= j < k ==> s[j] != '\n',
    ensures
        line_end(s, i) == k,
    decreases k - i,
{
    if i < k {
        lemma_line_end_at(s, i + 1, k);
    }
}

proof fn lemma_field(s: Seq<char>, pre: Seq<char>, key: Seq<char>, val: Seq<char>, post: Seq<char>)
    requires
        s == pre + key + val + nl() + post,
        single_line(val),
    ensures
        field_at(s, pre.len() as int, key) == Some((val, (pre.len() + key.len() + val.len() + 1) as int)),
{
    let p = pre.len() as int;
    let a = p + key.len();
    let e = a + val.len();
    assert(s.subrange(p, a) =~= key);
    assert(s[e] == '\n');
    assert forall|j: int| a <= j < e implies s[j] != '\n' by {
        assert(s[j] == val[j - a]);
    }
    lemma_line_end_at(s, a, e);
    assert(s.subrange(a, e) =~= val);
}

/// A runtime descriptor reads back as the version, application name,
/// application version and output directory it was rendered from, provided
/// none of the four holds a line break.
pub proof fn lemma_descriptor_round_trip(version: Seq<char>, extensions: Seq<char>, c: BuildConfig)
    requires
        single_line(version),
        single_line(c.app_name@),
        single_line(c.app_version@),
        single_line(c.output_dir@),
    ensures
        descriptor_fields(descriptor_text(version, extensions, c))
            == Some((version, c.app_name@, c.app_version@, c.output_dir@)),
{
    let s = descriptor_text(version, extensions, c);
    let h = "[PHP Runtime Configuration]"@;
    let k1 = "version = "@;
    let k2 = "app_name = "@;
    let k3 = "app_version = "@;
    let k4 = "output_dir = "@;
    let tail = nl() + "[Extensions]"@ + nl() + extensions + nl();
    let r4 = tail;
    let r3 = k4 + c.output_dir@ + nl() + r4;
    let r2 = k3 + c.app_version@ + nl() + r3;
    let r1 = k2 + c.app_name@ + nl() + r2;
    let r0 = k1 + version + nl() + r1;
    let e = Seq::<char>::empty();
    assert(single_line(e));
    let q1 = h + nl();
    let q2 = q1 + k1 + version + nl();
    let q3 = q2 + k2 + c.app_name@ + nl();
    let q4 = q3 + k3 + c.app_version@ + nl();
    assert(s =~= e + h + e + nl() + r0);
    lemma_field(s, e, h, e, r0);
    assert(s =~= q1 + k1 + version + nl() + r1);
    lemma_field(s, q1, k1, version, r1);
    assert(s =~= q2 + k2 + c.app_name@ + nl() + r2);
    lemma_field(s, q2, k2, c.app_name@, r2);
    assert(s =~= q3 + k3 + c.app_version@ + nl() + r3);
    lemma_field(s, q3, k3, c.app_version@, r3);
    assert(s =~= q4 + k4 + c.output_dir@ + nl() + r4);
    lemma_field(s, q4, k4, c.output_dir@, r4);
}

} // verus!
