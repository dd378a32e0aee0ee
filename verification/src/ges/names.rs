//! The names of properties and of replicas.

use crate::text::decimal;
use vstd::prelude::*;

verus! {

/// Where the last segment of a text starts, when it is read from `at` on and the segment that is
/// being read starts at `from`: every `::` starts another one.
pub open spec fn segment_start(s: Seq<char>, from: int, at: int) -> int
    decreases s.len() - at,
{
    if at + 1 >= s.len() {
        from
    } else if s[at] == ':' && s[at + 1] == ':' {
        segment_start(s, at + 2, at + 2)
    } else {
        segment_start(s, from, at + 1)
    }
}

/// What follows the last `::` of a text; the whole text where there is none.
pub open spec fn last_segment(s: Seq<char>) -> Seq<char> {
    s.skip(segment_start(s, 0, 0))
}

/// The bare name of a property that may be written with the name of its owner.
pub fn bare_property_name(full_name: &str) -> (name: String)
    ensures
        name@ == last_segment(full_name@),
{
    let len: usize = full_name.unicode_len();
    let mut from: usize = 0;
    let mut at: usize = 0;
    while len >= 2 && at < len - 1
        invariant
            len == full_name@.len(),
            from <= at <= len,
            segment_start(full_name@, 0, 0) == segment_start(full_name@, from as int, at as int),
        decreases len - at,
    {
        if full_name.get_char(at) == ':' && full_name.get_char(at + 1) == ':' {
            at = at + 2;
            from = at;
        } else {
            at = at + 1;
        }
    }
    let name = full_name.substring_char(from, len).to_owned();
    proof {
        assert(full_name@.subrange(from as int, len as int) =~= full_name@.skip(from as int));
    }
    name
}

/// A property with the name of its owner.
pub open spec fn full_name_of(owner: Seq<char>, name: Seq<char>) -> Seq<char> {
    owner + "::"@ + name
}

/// Writes a property with the name of its owner.
pub fn full_property_name(owner: &str, name: &str) -> (full_name: String)
    ensures
        full_name@ == full_name_of(owner@, name@),
{
    let mut full_name = owner.to_owned();
    full_name.append("::");
    full_name.append(name);
    full_name
}

proof fn lemma_no_more_segments(s: Seq<char>, from: int, at: int)
    requires
        0 <= at,
        forall|i: int| at <= i < s.len() ==> s[i] != ':',
    ensures
        segment_start(s, from, at) == from,
    decreases s.len() - at,
{
    if at + 1 < s.len() {
        lemma_no_more_segments(s, from, at + 1);
    }
}

proof fn lemma_skip_to_separator(s: Seq<char>, from: int, at: int, separator: int)
    requires
        0 <= at <= separator,
        separator + 1 < s.len(),
        forall|i: int| at <= i < separator ==> s[i] != ':',
        s[separator] == ':',
        s[separator + 1] == ':',
    ensures
        segment_start(s, from, at) == segment_start(s, separator + 2, separator + 2),
    decreases separator - at,
{
    if at < separator {
        lemma_skip_to_separator(s, from, at + 1, separator);
    }
}

/// The bare name comes back from a full one, as long as neither part has a colon in it.
pub proof fn law_bare_name_comes_back(owner: Seq<char>, name: Seq<char>)
    requires
        !owner.contains(':'),
        !name.contains(':'),
    ensures
        last_segment(full_name_of(owner, name)) == name,
{
    let s = full_name_of(owner, name);
    let n = owner.len() as int;
    reveal_strlit("::");
    assert forall|i: int| 0 <= i < n implies s[i] != ':' by {
        assert(s[i] == owner[i]);
        assert(owner.contains(owner[i]));
    }
    assert(s[n] == "::"@[0] && s[n + 1] == "::"@[1]);
    lemma_skip_to_separator(s, 0, 0, n);
    assert forall|i: int| n + 2 <= i < s.len() implies s[i] != ':' by {
        assert(s[i] == name[i - n - 2]);
        assert(name.contains(name[i - n - 2]));
    }
    lemma_no_more_segments(s, n + 2, n + 2);
    assert(s.skip(n + 2) =~= name);
}

/// The name of a replica that was extracted from an asset: the number of the replica, and the name
/// of the primary.
pub open spec fn extracted_name(replica: u64, name: Seq<char>) -> Seq<char> {
    "replica"@ + crate::text::decimal_text(replica as nat) + "_"@ + name
}

/// Names a replica that was extracted from an asset.
pub fn extracted_replica_name(replica: u64, name: &str) -> (text: String)
    ensures
        text@ == extracted_name(replica, name@),
{
    let mut text = "replica".to_owned();
    text.append(decimal(replica).as_str());
    text.append("_");
    text.append(name);
    text
}

/// The name of a replica that was made property by property.
pub open spec fn copied_name(replica: u64, name: Seq<char>) -> Seq<char> {
    "replica_"@ + crate::text::decimal_text(replica as nat) + "_"@ + name
}

/// Names a replica that was made property by property.
pub fn copied_replica_name(replica: u64, name: &str) -> (text: String)
    ensures
        text@ == copied_name(replica, name@),
{
    let mut text = "replica_".to_owned();
    text.append(decimal(replica).as_str());
    text.append("_");
    text.append(name);
    text
}

/// The name of a replica of a timeline.
pub open spec fn timeline_name(replica: u64, name: Option<Seq<char>>) -> Seq<char> {
    match name {
        Some(name) => name + "_replica_"@ + crate::text::decimal_text(replica as nat),
        None => "timeline_replica_"@ + crate::text::decimal_text(replica as nat),
    }
}

/// Names a replica of a timeline, which may have no name.
pub fn timeline_replica_name(replica: u64, name: Option<&str>) -> (text: String)
    ensures
        text@ == timeline_name(
            replica,
            match name {
                Some(name) => Some(name@),
                None => None,
            },
        ),
{
    let mut text = match name {
        Some(name) => {
            let mut text = name.to_owned();
            text.append("_replica_");
            text
        },
        None => "timeline_replica_".to_owned(),
    };
    text.append(decimal(replica).as_str());
    text
}

/// Whether a text has a separator in it.
pub open spec fn has_separator(s: Seq<char>) -> bool {
    exists|i: int| 0 <= i < s.len() - 1 && #[trigger] s[i] == ':' && s[i + 1] == ':'
}

proof fn lemma_last_segment(s: Seq<char>, from: int, at: int)
    requires
        0 <= from <= at <= s.len(),
        from == 0 || (from >= 2 && s[from - 2] == ':' && s[from - 1] == ':'),
        forall|i: int| from <= i < at && i < s.len() - 1 ==> !(#[trigger] s[i] == ':' && s[i + 1]
            == ':'),
    ensures
        ({
            let r = segment_start(s, from, at);
            &&& 0 <= r <= s.len()
            &&& r == 0 || (r >= 2 && s[r - 2] == ':' && s[r - 1] == ':')
            &&& forall|i: int|
                r <= i < s.len() - 1 ==> !(#[trigger] s[i] == ':' && s[i + 1] == ':')
        }),
    decreases s.len() - at,
{
    if at + 1 < s.len() {
        if s[at] == ':' && s[at + 1] == ':' {
            lemma_last_segment(s, at + 2, at + 2);
        } else {
            lemma_last_segment(s, from, at + 1);
        }
    }
}

/// The bare name of a property is the end of what is written, has no separator in it, and is the
/// whole or stands right behind a separator.
pub proof fn law_bare_names_end_the_full_ones(s: Seq<char>)
    ensures
        !has_separator(last_segment(s)),
        last_segment(s).len() <= s.len(),
        last_segment(s) == s.skip(s.len() - last_segment(s).len()),
        last_segment(s) != s ==> ({
            let n = s.len() - last_segment(s).len();
            n >= 2 && s[n - 2] == ':' && s[n - 1] == ':'
        }),
        !has_separator(s) ==> last_segment(s) == s,
{
    lemma_last_segment(s, 0, 0);
    let r = segment_start(s, 0, 0);
    let name = last_segment(s);
    assert forall|i: int| 0 <= i < name.len() - 1 implies !(#[trigger] name[i] == ':' && name[i + 1]
        == ':') by {
        assert(name[i] == s[r + i] && name[i + 1] == s[r + i + 1]);
    }
    if r == 0 {
        assert(name =~= s);
    } else {
        assert(s[r - 2] == ':' && s[r - 1] == ':');
        assert(has_separator(s));
    }
}

/// A full name is the owner, two colons and the name, in this order.
pub proof fn law_full_names_hold_both(owner: Seq<char>, name: Seq<char>)
    ensures
        full_name_of(owner, name).len() == owner.len() + 2 + name.len(),
        full_name_of(owner, name).take(owner.len() as int) == owner,
        full_name_of(owner, name).skip(owner.len() as int + 2) == name,
        has_separator(full_name_of(owner, name)),
{
    reveal_strlit("::");
    let s = full_name_of(owner, name);
    let n = owner.len() as int;
    assert(s.take(n) =~= owner);
    assert(s.skip(n + 2) =~= name);
    assert(s[n] == "::"@[0] && s[n + 1] == "::"@[1]);
}

/// Replicas of one object have different names, and none has the name of the object; different
/// objects have different names in one replica. The names start or end with the object's own.
pub proof fn law_names_tell_replicas_apart(a: u64, b: u64, name: Seq<char>)
    requires
        a != b,
    ensures
        extracted_name(a, name) != extracted_name(b, name),
        copied_name(a, name) != copied_name(b, name),
        timeline_name(a, Some(name)) != timeline_name(b, Some(name)),
        timeline_name(a, None) != timeline_name(b, None),
        extracted_name(a, name) != name && copied_name(a, name) != name && timeline_name(
            a,
            Some(name),
        ) != name,
        extracted_name(a, name).skip(extracted_name(a, name).len() - name.len()) == name,
        copied_name(a, name).skip(copied_name(a, name).len() - name.len()) == name,
        timeline_name(a, Some(name)).take(name.len() as int) == name,
{
    reveal_strlit("replica");
    reveal_strlit("replica_");
    reveal_strlit("_replica_");
    reveal_strlit("timeline_replica_");
    reveal_strlit("_");
    crate::text::law_decimals_are_read_back(a as nat);
    crate::text::law_decimals_are_read_back(b as nat);
    let x = crate::text::decimal_text(a as nat);
    let y = crate::text::decimal_text(b as nat);
    let (m, n) = (x.len() as int, y.len() as int);
    let k = name.len() as int;
    assert(x != y);
    let (e, f) = (extracted_name(a, name), extracted_name(b, name));
    assert(e.subrange(7, 7 + m) =~= x && f.subrange(7, 7 + n) =~= y);
    assert(e.len() == 8 + m + k && f.len() == 8 + n + k);
    let (c, d) = (copied_name(a, name), copied_name(b, name));
    assert(c.subrange(8, 8 + m) =~= x && d.subrange(8, 8 + n) =~= y);
    assert(c.len() == 9 + m + k && d.len() == 9 + n + k);
    let (t, u) = (timeline_name(a, Some(name)), timeline_name(b, Some(name)));
    assert(t.skip(k + 9) =~= x && u.skip(k + 9) =~= y);
    assert(timeline_name(a, None).skip(17) =~= x && timeline_name(b, None).skip(17) =~= y);
    assert(e.skip(e.len() - k) =~= name);
    assert(c.skip(c.len() - k) =~= name);
    assert(t.take(k) =~= name);
}

/// What the names of replicas look like: `replica4_x`, `replica_4_x`, `x_replica_4`, and
/// `timeline_replica_4` where there is no `x`.
pub proof fn law_names_are_spelled_out(replica: u64, name: Seq<char>)
    ensures
        ({
            let number = crate::text::decimal_text(replica as nat);
            let word = seq!['r', 'e', 'p', 'l', 'i', 'c', 'a'];
            &&& extracted_name(replica, name) == word + number + seq!['_'] + name
            &&& copied_name(replica, name) == word + seq!['_'] + number + seq!['_'] + name
            &&& timeline_name(replica, Some(name)) == name + seq!['_'] + word + seq!['_'] + number
            &&& timeline_name(replica, None) == timeline_name(replica, Some("timeline"@))
        }),
{
    reveal_strlit("replica");
    reveal_strlit("replica_");
    reveal_strlit("_replica_");
    reveal_strlit("timeline_replica_");
    reveal_strlit("timeline");
    reveal_strlit("_");
    let number = crate::text::decimal_text(replica as nat);
    let word = seq!['r', 'e', 'p', 'l', 'i', 'c', 'a'];
    assert("replica"@ =~= word);
    assert("replica_"@ =~= word + seq!['_']);
    assert("_"@ =~= seq!['_']);
    assert("_replica_"@ =~= seq!['_'] + word + seq!['_']);
    assert(extracted_name(replica, name) =~= word + number + seq!['_'] + name);
    assert(copied_name(replica, name) =~= word + seq!['_'] + number + seq!['_'] + name);
    assert(timeline_name(replica, Some(name)) =~= name + seq!['_'] + word + seq!['_'] + number);
    assert("timeline_replica_"@ =~= "timeline"@ + "_replica_"@);
    assert(timeline_name(replica, None) =~= timeline_name(replica, Some("timeline"@)));
}

} // verus!
