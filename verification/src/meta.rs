//! Track metadata read from the tags of an audio file.
use vstd::prelude::*;

verus! {

/// Title, artist and album of a track, where its tags name them.
#[derive(Debug)]
pub struct TrackMeta {
    pub title: Option<String>,
    pub artist: Option<String>,
    pub album: Option<String>,
}

/// A copy of an optional text.
fn clone_text(t: &Option<String>) -> (r: Option<String>)
    ensures
        r == *t,
{
    match t {
        Some(s) => Some(s.clone()),
        None => None,
    }
}

impl Clone for TrackMeta {
    fn clone(&self) -> (m: TrackMeta)
        ensures
            m == *self,
    {
        TrackMeta {
            title: clone_text(&self.title),
            artist: clone_text(&self.artist),
            album: clone_text(&self.album),
        }
    }
}

impl Default for TrackMeta {
    fn default() -> (m: TrackMeta)
        ensures
            m.title is None,
            m.artist is None,
            m.album is None,
    {
        TrackMeta { title: None, artist: None, album: None }
    }
}

/// ASCII case folding of one character: `A`-`Z` become `a`-`z`, all other
/// characters stay.
pub open spec fn ascii_lower(c: char) -> char {
    if 65 <= c as int <= 90 {
        (c as int + 32) as char
    } else {
        c
    }
}

/// Whether `key`, folded to ASCII lowercase, reads `name`.
pub open spec fn folds_to(key: Seq<char>, name: Seq<char>) -> bool {
    &&& key.len() == name.len()
    &&& forall|i: int| 0 <= i < key.len() ==> ascii_lower(#[trigger] key[i]) == name[i]
}

/// Folding ignores ASCII case: a key that differs from another only in
/// having some lowercase letters `a`-`z` written in uppercase folds to the
/// same names.
pub proof fn law_folding_ignores_ascii_case(k: Seq<char>, upper: Seq<char>, name: Seq<char>)
    requires
        upper.len() == k.len(),
        forall|i: int|
            0 <= i < k.len() ==> #[trigger] upper[i] == k[i] || (97 <= k[i] as int <= 122
                && upper[i] as int == k[i] as int - 32),
    ensures
        folds_to(upper, name) == folds_to(k, name),
{
    assert forall|i: int| 0 <= i < k.len() implies #[trigger] ascii_lower(upper[i]) == ascii_lower(
        k[i],
    ) by {
        if upper[i] != k[i] {
            assert(ascii_lower(upper[i]) as int == upper[i] as int + 32);
        }
    }
    if folds_to(k, name) {
        assert forall|i: int| 0 <= i < upper.len() implies ascii_lower(#[trigger] upper[i])
            == name[i] by {
            assert(ascii_lower(upper[i]) == ascii_lower(k[i]));
        }
    }
    if folds_to(upper, name) {
        assert forall|i: int| 0 <= i < k.len() implies ascii_lower(#[trigger] k[i]) == name[i] by {
            assert(ascii_lower(upper[i]) == ascii_lower(k[i]));
        }
    }
}

/// A name without uppercase ASCII letters is named by itself; in
/// particular every field name (`title`, `artist`, `album`) is named by
/// its key written in any mix of ASCII case.
pub proof fn law_lowercase_name_names_itself(name: Seq<char>)
    requires
        forall|i: int| 0 <= i < name.len() ==> !(65 <= #[trigger] name[i] as int <= 90),
    ensures
        folds_to(name, name),
{
}

/// Whether `key` spells `name` letter by letter, each small letter `a`-`z`
/// of `name` written either as itself or as its capital, 32 code points
/// below it, and every other character written as itself.
pub open spec fn spells_in_any_ascii_case(key: Seq<char>, name: Seq<char>) -> bool {
    &&& key.len() == name.len()
    &&& forall|i: int|
        0 <= i < key.len() ==> #[trigger] key[i] == name[i] || (97 <= name[i] as int <= 122
            && key[i] as int == name[i] as int - 32)
}

/// Folding turns every capital `A`-`Z` into its small letter and keeps every
/// other character: a key folds to a name without capitals exactly when it
/// spells that name with any of its letters in either case.
pub proof fn law_key_folds_in_any_ascii_case(key: Seq<char>, name: Seq<char>)
    requires
        forall|i: int| 0 <= i < name.len() ==> !(65 <= #[trigger] name[i] as int <= 90),
    ensures
        folds_to(key, name) <==> spells_in_any_ascii_case(key, name),
        forall|c: char| 65 <= c as int <= 90 ==> #[trigger] ascii_lower(c) as int == c as int + 32,
        forall|c: char| !(65 <= c as int <= 90) ==> #[trigger] ascii_lower(c) == c,
{
    if folds_to(key, name) {
        assert forall|i: int| 0 <= i < key.len() implies #[trigger] key[i] == name[i] || (97
            <= name[i] as int <= 122 && key[i] as int == name[i] as int - 32) by {
            assert(ascii_lower(key[i]) == name[i]);
        }
    }
    if spells_in_any_ascii_case(key, name) {
        assert forall|i: int| 0 <= i < key.len() implies ascii_lower(#[trigger] key[i])
            == name[i] by {
            if key[i] != name[i] {
                assert(97 <= name[i] as int <= 122 && key[i] as int == name[i] as int - 32);
                assert(ascii_lower(key[i]) as int == name[i] as int);
            } else {
                assert(!(65 <= name[i] as int <= 90));
            }
        }
    }
}

/// When the last of a run of tags spells a field name made of small letters
/// `a`-`z`, in any mix of ASCII case, that tag's value is the field's value.
pub proof fn law_last_tag_in_any_case_sets_field(tags: Seq<(String, String)>, name: Seq<char>)
    requires
        tags.len() > 0,
        forall|i: int| 0 <= i < name.len() ==> 97 <= #[trigger] name[i] as int <= 122,
        spells_in_any_ascii_case(tags.last().0@, name),
    ensures
        last_tag_value(tags, name) == Some(tags.last().1),
{
    law_key_folds_in_any_ascii_case(tags.last().0@, name);
}

/// The value of the last tag whose key folds to `name`, if any.
pub open spec fn last_tag_value(tags: Seq<(String, String)>, name: Seq<char>) -> Option<String>
    decreases tags.len(),
{
    if tags.len() == 0 {
        None
    } else if folds_to(tags.last().0@, name) {
        Some(tags.last().1)
    } else {
        last_tag_value(tags.drop_last(), name)
    }
}

/// Tags read later override earlier ones: the value for a field over two
/// runs of tags is the second run's value when it names the field, else the
/// first run's.
pub proof fn law_later_tags_override(a: Seq<(String, String)>, b: Seq<(String, String)>, name: Seq<char>)
    ensures
        last_tag_value(a + b, name) == match last_tag_value(b, name) {
            Some(v) => Some(v),
            None => last_tag_value(a, name),
        },
    decreases b.len(),
{
    if b.len() == 0 {
        assert(a + b =~= a);
    } else {
        assert((a + b).drop_last() =~= a + b.drop_last());
        assert((a + b).last() == b.last());
        law_later_tags_override(a, b.drop_last(), name);
    }
}

/// Whether the tag key `key` names the field `name` (given in lowercase),
/// ignoring ASCII case.
fn key_names(key: &str, name: &str) -> (r: bool)
    ensures
        r == folds_to(key@, name@),
{
    let n = key.unicode_len();
    if n != name.unicode_len() {
        return false;
    }
    let mut i: usize = 0;
    while i < n
        invariant
            n == key@.len(),
            n == name@.len(),
            i <= n,
            forall|j: int| 0 <= j < i ==> ascii_lower(#[trigger] key@[j]) == name@[j],
        decreases n - i,
    {
        let c = key.get_char(i);
        let d = name.get_char(i);
        let code = c as u32;
        let matches = if 65 <= code && code <= 90 {
            code + 32 == d as u32
        } else {
            c == d
        };
        if !matches {
            assert(ascii_lower(key@[i as int]) != name@[i as int]);
            return false;
        }
        i = i + 1;
    }
    true
}

impl TrackMeta {
    /// Records one tag: keys `title`, `artist` and `album`, in any ASCII case,
    /// set the matching field; other keys are ignored.
    pub fn apply_tag(&mut self, key: &str, value: String)
        ensures
            final(self).title == if folds_to(key@, "title"@) {
                Some(value)
            } else {
                old(self).title
            },
            final(self).artist == if folds_to(key@, "artist"@) {
                Some(value)
            } else {
                old(self).artist
            },
            final(self).album == if folds_to(key@, "album"@) {
                Some(value)
            } else {
                old(self).album
            },
    {
        proof {
            reveal_strlit("title");
            reveal_strlit("artist");
            reveal_strlit("album");
        }
        if key_names(key, "title") {
            assert(ascii_lower(key@[0]) == 't');
            assert(!folds_to(key@, "artist"@));
            assert(!folds_to(key@, "album"@));
            self.title = Some(value);
        } else if key_names(key, "artist") {
            assert(!folds_to(key@, "album"@));
            self.artist = Some(value);
        } else if key_names(key, "album") {
            self.album = Some(value);
        }
    }

    /// The metadata named by a list of tags, in the order the file gives
    /// them: each field holds the value of the last tag that names it.
    pub fn from_tags(tags: &[(String, String)]) -> (m: TrackMeta)
        ensures
            m.title == last_tag_value(tags@, "title"@),
            m.artist == last_tag_value(tags@, "artist"@),
            m.album == last_tag_value(tags@, "album"@),
    {
        let mut m = TrackMeta { title: None, artist: None, album: None };
        let mut i: usize = 0;
        while i < tags.len()
            invariant
                i <= tags.len(),
                m.title == last_tag_value(tags@.take(i as int), "title"@),
                m.artist == last_tag_value(tags@.take(i as int), "artist"@),
                m.album == last_tag_value(tags@.take(i as int), "album"@),
            decreases tags.len() - i,
        {
            let value = tags[i].1.clone();
            m.apply_tag(tags[i].0.as_str(), value);
            assert(tags@.take(i as int + 1).drop_last() =~= tags@.take(i as int));
            assert(tags@.take(i as int + 1).last() == tags@[i as int]);
            i = i + 1;
        }
        assert(tags@.take(tags.len() as int) =~= tags@);
        m
    }
}

/// Lowercase form of a text, as `str::to_lowercase` computes it (Unicode
/// case mapping).
pub uninterp spec fn lowercase(text: Seq<char>) -> Seq<char>;

/// `str::to_lowercase`.
#[verifier::external_body]
fn str_to_lowercase(text: &str) -> (r: String)
    ensures
        r@ == lowercase(text@),
{
    text.to_lowercase()
}

/// The format label of an audio file: its extension in lowercase, or the
/// empty label when the file name has none.
pub fn format_label(extension: Option<&str>) -> (label: String)
    ensures
        label@ == match extension {
            Some(e) => lowercase(e@),
            None => Seq::<char>::empty(),
        },
{
    match extension {
        Some(e) => str_to_lowercase(e),
        None => String::new(),
    }
}

/// The title shown for an imported track: its title tag when it has one,
/// else the file name without extension, else "Untitled".
pub fn display_title(title_tag: Option<String>, file_stem: Option<&str>) -> (title: String)
    ensures
        title@ == match title_tag {
            Some(t) => t@,
            None => match file_stem {
                Some(s) => s@,
                None => "Untitled"@,
            },
        },
{
    match title_tag {
        Some(t) => t,
        None => match file_stem {
            Some(s) => String::from_str(s),
            None => String::from_str("Untitled"),
        },
    }
}

} // verus!
