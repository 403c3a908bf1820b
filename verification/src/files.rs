//! The files that the daemon offers: which of them count, under which names, and in which order.

use crate::packet::PathTypes;
use crate::registry::Registry;
use crate::text::{
    begins_with, chars_of, same_text, slashed_chars, split_chars, split_on, text_between, text_of,
    texts, with_slashes,
};
use vstd::prelude::*;
use vstd::string::*;

verus! {

/// Where files of each kind are.
#[derive(Debug)]
pub struct FilePaths {
    pub profiles: String,
    pub mic_profiles: String,
    pub presets: String,
    pub icons: String,
    pub samples: String,
}

/// The part of the daemon that lists files.
#[derive(Debug)]
pub struct FileManager {
    pub paths: FilePaths,
}

/// The place of the last dot of a text.
pub open spec fn last_dot(name: Seq<char>) -> Option<int>
    decreases name.len(),
{
    if name.len() == 0 {
        None
    } else if name.last() == '.' {
        Some(name.len() - 1)
    } else {
        last_dot(name.drop_last())
    }
}

/// The place of the dot before the extension of a file. A dot at the front begins a name, not an
/// extension.
pub open spec fn extension_dot(name: Seq<char>) -> Option<int> {
    match last_dot(name) {
        Some(i) => if i == 0 || name == ".."@ {
            None
        } else {
            Some(i)
        },
        None => None,
    }
}

/// Finds the place of the dot before the extension of a file.
pub(crate) fn find_extension(name: &Vec<char>) -> (place: Option<usize>)
    ensures
        place is Some <==> extension_dot(name@) is Some,
        place is Some ==> place->0 == extension_dot(name@)->0 && place->0 < name@.len(),
{
    proof {
        reveal_strlit("..");
    }
    let mut end: usize = name.len();
    assert(name@.take(end as int) =~= name@);
    assert(name@.len() == 2 && name@[0] == '.' && name@[1] == '.' ==> name@ =~= ".."@);
    while end > 0
        invariant
            end <= name@.len(),
            last_dot(name@) == last_dot(name@.take(end as int)),
            (name@.len() == 2 && name@[0] == '.' && name@[1] == '.') == (name@ == ".."@),
        decreases end,
    {
        assert(name@.take(end as int).drop_last() =~= name@.take(end - 1));
        if name[end - 1] == '.' {
            if end == 1 || (name.len() == 2 && name[0] == '.' && name[1] == '.') {
                return None;
            }
            return Some(end - 1);
        }
        end = end - 1;
    }
    None
}

/// Whether a file has one of some extensions.
pub open spec fn has_extension(name: Seq<char>, extensions: Seq<Seq<char>>) -> bool {
    extension_dot(name) is Some && extensions.contains(name.skip(extension_dot(name)->0 + 1))
}

/// The name under which a file is offered: with its extension or without.
pub open spec fn offered_name(name: Seq<char>, with_extension: bool) -> Seq<char> {
    if with_extension {
        name
    } else {
        name.take(extension_dot(name)->0)
    }
}

/// The texts of several string slices.
pub open spec fn str_texts(names: Seq<&str>) -> Seq<Seq<char>> {
    Seq::new(names.len(), |i: int| names[i]@)
}

/// The names under which those files are offered that have one of some extensions.
pub open spec fn offered(names: Seq<Seq<char>>, extensions: Seq<Seq<char>>, with_extension: bool) -> Seq<
    Seq<char>,
>
    decreases names.len(),
{
    if names.len() == 0 {
        Seq::empty()
    } else {
        let before = offered(names.drop_last(), extensions, with_extension);
        if has_extension(names.last(), extensions) {
            before.push(offered_name(names.last(), with_extension))
        } else {
            before
        }
    }
}

/// Finds the name under which a file is offered; none where its extension is not asked for.
fn offer(name: &str, extensions: &Vec<&str>, with_extension: bool) -> (offer: Option<String>)
    ensures
        offer is Some <==> has_extension(name@, str_texts(extensions@)),
        offer is Some ==> offer->0@ == offered_name(name@, with_extension),
{
    let chars = chars_of(name);
    let dot: usize = match find_extension(&chars) {
        Some(dot) => dot,
        None => return None,
    };
    let length: usize = chars.len();
    let extension = text_between(&chars, dot + 1, length);
    assert(extension@ =~= name@.skip(dot + 1));
    let mut i: usize = 0;
    while i < extensions.len()
        invariant
            i <= extensions@.len(),
            chars@ == name@,
            extension@ == name@.skip(dot + 1),
            extension_dot(name@) == Some(dot as int),
            dot < name@.len(),
            forall|j: int| 0 <= j < i ==> #[trigger] extensions@[j]@ != extension@,
        decreases extensions@.len() - i,
    {
        if same_text(extensions[i], extension.as_str()) {
            assert(str_texts(extensions@)[i as int] == extension@);
            if with_extension {
                return Some(name.to_owned());
            }
            let stem = text_between(&chars, 0, dot);
            assert(stem@ =~= name@.take(dot as int));
            return Some(stem);
        }
        i = i + 1;
    }
    assert(!str_texts(extensions@).contains(extension@)) by {
        if str_texts(extensions@).contains(extension@) {
            let j = choose|j: int|
                0 <= j < extensions@.len() && str_texts(extensions@)[j] == extension@;
            assert(extensions@[j]@ == extension@);
        }
    }
    None
}

/// A text in lower case.
pub uninterp spec fn lowercase(text: Seq<char>) -> Seq<char>;

/// `str::to_lowercase` gives the text in lower case.
#[verifier::external_body]
pub(crate) fn to_lowercase(text: &str) -> (lower: String)
    ensures
        lower@ == lowercase(text@),
{
    text.to_lowercase()
}

/// Whether a text comes before another in the order of its characters, or is the same.
pub open spec fn in_order(a: Seq<char>, b: Seq<char>) -> bool
    decreases a.len(),
{
    if a.len() == 0 {
        true
    } else if b.len() == 0 {
        false
    } else if a[0] != b[0] {
        a[0] < b[0]
    } else {
        in_order(a.skip(1), b.skip(1))
    }
}

/// The order of texts is total.
pub proof fn order_total(a: Seq<char>, b: Seq<char>)
    ensures
        in_order(a, b) || in_order(b, a),
    decreases a.len(),
{
    if a.len() > 0 && b.len() > 0 && a[0] == b[0] {
        order_total(a.skip(1), b.skip(1));
    }
}

/// The order of texts is transitive.
pub proof fn order_transitive(a: Seq<char>, b: Seq<char>, c: Seq<char>)
    requires
        in_order(a, b),
        in_order(b, c),
    ensures
        in_order(a, c),
    decreases a.len(),
{
    if a.len() > 0 && b.len() > 0 && c.len() > 0 && a[0] == b[0] && b[0] == c[0] {
        order_transitive(a.skip(1), b.skip(1), c.skip(1));
    }
}

/// Finds whether a text comes before another or is the same.
fn ordered(a: &Vec<char>, b: &Vec<char>) -> (before: bool)
    ensures
        before == in_order(a@, b@),
{
    let mut i: usize = 0;
    assert(a@.skip(0) =~= a@ && b@.skip(0) =~= b@);
    while i < a.len()
        invariant
            i <= a@.len(),
            i <= b@.len(),
            in_order(a@, b@) == in_order(a@.skip(i as int), b@.skip(i as int)),
        decreases a@.len() - i,
    {
        if i >= b.len() {
            return false;
        }
        if a[i] != b[i] {
            return a[i] < b[i];
        }
        assert(a@.skip(i as int).skip(1) =~= a@.skip(i + 1));
        assert(b@.skip(i as int).skip(1) =~= b@.skip(i + 1));
        i = i + 1;
    }
    true
}

/// Whether one name is listed before another: upper and lower case count the same.
pub open spec fn listed_before(a: Seq<char>, b: Seq<char>) -> bool {
    in_order(lowercase(a), lowercase(b))
}

/// How many of the first `end` names are not listed behind `name`, counted from the back of those
/// that are.
pub open spec fn place_for(names: Seq<Seq<char>>, name: Seq<char>, end: int) -> int
    decreases end,
{
    if end <= 0 || end > names.len() || listed_before(names[end - 1], name) {
        end
    } else {
        place_for(names, name, end - 1)
    }
}

/// The names in their order. Names that count the same stay as they came.
pub open spec fn sorted_names(names: Seq<Seq<char>>) -> Seq<Seq<char>>
    decreases names.len(),
{
    if names.len() == 0 {
        Seq::empty()
    } else {
        let before = sorted_names(names.drop_last());
        before.insert(place_for(before, names.last(), before.len() as int), names.last())
    }
}

/// Whether names are in their order.
pub open spec fn is_sorted(names: Seq<Seq<char>>) -> bool {
    forall|i: int, j: int|
        0 <= i < j < names.len() ==> listed_before(#[trigger] names[i], #[trigger] names[j])
}

/// The place for a name lies within the names; those before it are listed before the name, and the
/// name before those behind it.
proof fn lemma_place_for(names: Seq<Seq<char>>, name: Seq<char>, end: int)
    requires
        is_sorted(names),
        0 <= end <= names.len(),
    ensures
        0 <= place_for(names, name, end) <= end,
        forall|i: int|
            0 <= i < place_for(names, name, end) ==> listed_before(#[trigger] names[i], name),
        forall|i: int|
            place_for(names, name, end) <= i < end ==> listed_before(name, #[trigger] names[i]),
    decreases end,
{
    if end > 0 {
        if listed_before(names[end - 1], name) {
            assert forall|i: int| 0 <= i < end implies listed_before(#[trigger] names[i], name) by {
                if i < end - 1 {
                    assert(listed_before(names[i], names[end - 1]));
                    order_transitive(
                        lowercase(names[i]),
                        lowercase(names[end - 1]),
                        lowercase(name),
                    );
                }
            }
        } else {
            order_total(lowercase(names[end - 1]), lowercase(name));
            lemma_place_for(names, name, end - 1);
        }
    }
}

/// Files are listed in order, and every file that came is listed as often as it came.
pub proof fn sorting_keeps_names(names: Seq<Seq<char>>)
    ensures
        is_sorted(sorted_names(names)),
        sorted_names(names).to_multiset() == names.to_multiset(),
        sorted_names(names).len() == names.len(),
    decreases names.len(),
{
    broadcast use vstd::seq_lib::group_to_multiset_ensures;

    if names.len() > 0 {
        sorting_keeps_names(names.drop_last());
        let before = sorted_names(names.drop_last());
        let name = names.last();
        lemma_place_for(before, name, before.len() as int);
        let place = place_for(before, name, before.len() as int);
        let after = before.insert(place, name);
        assert forall|i: int, j: int| 0 <= i < j < after.len() implies listed_before(
            #[trigger] after[i],
            #[trigger] after[j],
        ) by {
            if i < place && j > place {
                assert(listed_before(before[i], before[j - 1]));
            } else if i > place {
                assert(listed_before(before[i - 1], before[j - 1]));
            } else if j < place {
                assert(listed_before(before[i], before[j]));
            }
        }
        vstd::seq_lib::to_multiset_insert(before, place, name);
        assert(names =~= names.drop_last().push(name));
    } else {
        assert(sorted_names(names) =~= names);
    }
}

/// The names without those that repeat the one before.
pub open spec fn without_repeats(names: Seq<Seq<char>>) -> Seq<Seq<char>>
    decreases names.len(),
{
    if names.len() <= 1 {
        names
    } else {
        let before = without_repeats(names.drop_last());
        if names.last() == names[names.len() - 2] {
            before
        } else {
            before.push(names.last())
        }
    }
}

/// A list without names that repeat the one before has the same names, and none twice in a row.
pub proof fn repeats_dropped(names: Seq<Seq<char>>)
    ensures
        forall|name: Seq<char>| #[trigger]
            without_repeats(names).contains(name) <==> names.contains(name),
        forall|i: int|
            0 <= i < without_repeats(names).len() - 1 ==> #[trigger] without_repeats(names)[i]
                != without_repeats(names)[i + 1],
        names.len() > 0 ==> without_repeats(names).len() > 0 && without_repeats(names).last()
            == names.last(),
    decreases names.len(),
{
    if names.len() > 1 {
        let front = names.drop_last();
        repeats_dropped(front);
        let kept = without_repeats(names);
        assert(front.last() == names[names.len() - 2]);
        assert forall|name: Seq<char>| #[trigger] kept.contains(name) implies names.contains(
            name,
        ) by {
            if name != names.last() {
                assert(without_repeats(front).contains(name)) by {
                    let i = kept.index_of(name);
                    assert(without_repeats(front)[i] == name);
                }
                let i = front.index_of(name);
                assert(names[i] == name);
            } else {
                assert(names[names.len() - 1] == name);
            }
        }
        assert forall|name: Seq<char>| #[trigger] names.contains(name) implies kept.contains(
            name,
        ) by {
            let i = names.index_of(name);
            if i < names.len() - 1 {
                assert(front[i] == name);
                assert(without_repeats(front).contains(name));
                let j = without_repeats(front).index_of(name);
                assert(kept[j] == name);
            } else {
                assert(kept[kept.len() - 1] == name);
            }
        }
    }
}

/// Names in order stay so without those that repeat the one before.
proof fn lemma_kept_in_order(names: Seq<Seq<char>>)
    requires
        is_sorted(names),
    ensures
        is_sorted(without_repeats(names)),
    decreases names.len(),
{
    if names.len() > 1 {
        let front = names.drop_last();
        assert forall|i: int, j: int| 0 <= i < j < front.len() implies listed_before(
            #[trigger] front[i],
            #[trigger] front[j],
        ) by {
            assert(listed_before(names[i], names[j]));
        }
        lemma_kept_in_order(front);
        repeats_dropped(front);
        let before = without_repeats(front);
        assert forall|i: int| 0 <= i < before.len() implies listed_before(
            #[trigger] before[i],
            names.last(),
        ) by {
            assert(before.contains(before[i]));
            let k = front.index_of(before[i]);
            assert(names[k] == before[i]);
            assert(listed_before(names[k], names[names.len() - 1]));
        }
    }
}

/// What is listed is in order, and nothing is listed twice in a row.
pub proof fn listing_is_in_order(
    names: Seq<Seq<char>>,
    extensions: Seq<Seq<char>>,
    with_extension: bool,
)
    ensures
        is_sorted(listing(names, extensions, with_extension)),
        forall|i: int|
            0 <= i < listing(names, extensions, with_extension).len() - 1
                ==> #[trigger] listing(names, extensions, with_extension)[i] != listing(
                names,
                extensions,
                with_extension,
            )[i + 1],
{
    let sorted = sorted_names(offered(names, extensions, with_extension));
    sorting_keeps_names(offered(names, extensions, with_extension));
    lemma_kept_in_order(sorted);
    repeats_dropped(sorted);
}

/// Finds the place at which a name goes into a list in order.
fn find_place(names: &Vec<String>, name: &str) -> (place: usize)
    ensures
        place == place_for(texts(names@), name@, names@.len() as int),
        place <= names@.len(),
{
    let key = chars_of(to_lowercase(name).as_str());
    let mut end: usize = names.len();
    while end > 0
        invariant
            end <= names@.len(),
            key@ == lowercase(name@),
            place_for(texts(names@), name@, names@.len() as int) == place_for(
                texts(names@),
                name@,
                end as int,
            ),
        decreases end,
    {
        let other = chars_of(to_lowercase(names[end - 1].as_str()).as_str());
        assert(texts(names@)[end - 1] == names@[end - 1]@);
        if ordered(&other, &key) {
            return end;
        }
        end = end - 1;
    }
    0
}

/// Sorts names. Names that count the same stay as they came.
fn sort_names(names: Vec<String>) -> (sorted: Vec<String>)
    ensures
        texts(sorted@) == sorted_names(texts(names@)),
{
    let mut sorted: Vec<String> = Vec::new();
    let mut i: usize = 0;
    assert(texts(names@).take(0) =~= Seq::empty());
    assert(texts(sorted@) =~= sorted_names(texts(names@).take(0)));
    while i < names.len()
        invariant
            i <= names@.len(),
            texts(sorted@) == sorted_names(texts(names@).take(i as int)),
        decreases names@.len() - i,
    {
        let place: usize = find_place(&sorted, names[i].as_str());
        let ghost before = sorted@;
        sorted.insert(place, names[i].clone());
        proof {
            let taken = texts(names@).take(i + 1);
            assert(taken.drop_last() =~= texts(names@).take(i as int));
            assert(taken.last() == names@[i as int]@);
            assert(texts(sorted@) =~= texts(before).insert(place as int, names@[i as int]@));
        }
        i = i + 1;
    }
    assert(texts(names@).take(i as int) =~= texts(names@));
    sorted
}

/// Drops names that repeat the one before.
fn drop_repeats(names: Vec<String>) -> (kept: Vec<String>)
    ensures
        texts(kept@) == without_repeats(texts(names@)),
{
    let mut kept: Vec<String> = Vec::new();
    let mut i: usize = 0;
    assert(texts(kept@) =~= texts(names@).take(0));
    while i < names.len()
        invariant
            i <= names@.len(),
            texts(kept@) == without_repeats(texts(names@).take(i as int)),
        decreases names@.len() - i,
    {
        let repeats = i > 0 && same_text(names[i].as_str(), names[i - 1].as_str());
        let ghost before = kept@;
        proof {
            let taken = texts(names@).take(i + 1);
            assert(taken.drop_last() =~= texts(names@).take(i as int));
            assert(taken.last() == names@[i as int]@);
            if i > 0 {
                assert(taken[taken.len() - 2] == names@[i - 1]@);
            } else {
                assert(texts(before) =~= Seq::empty());
                assert(taken =~= seq![names@[0]@]);
            }
        }
        if !repeats {
            kept.push(names[i].clone());
            assert(texts(kept@) =~= texts(before).push(names@[i as int]@));
        }
        i = i + 1;
    }
    assert(texts(names@).take(i as int) =~= texts(names@));
    kept
}

impl FileManager {
    /// Lists the files of a directory that have one of some extensions. `names` are the names of all
    /// files in it.
    pub fn get_files_from_drive(
        &self,
        names: &Vec<String>,
        extensions: &Vec<&str>,
        with_extension: bool,
    ) -> (files: Vec<String>)
        ensures
            texts(files@) == offered(texts(names@), str_texts(extensions@), with_extension),
    {
        let mut files: Vec<String> = Vec::new();
        let mut i: usize = 0;
        assert(texts(names@).take(0) =~= Seq::empty());
        assert(texts(files@) =~= Seq::empty());
        while i < names.len()
            invariant
                i <= names@.len(),
                texts(files@) == offered(
                    texts(names@).take(i as int),
                    str_texts(extensions@),
                    with_extension,
                ),
            decreases names@.len() - i,
        {
            let ghost before = files@;
            proof {
                let taken = texts(names@).take(i + 1);
                assert(taken.drop_last() =~= texts(names@).take(i as int));
                assert(taken.last() == names@[i as int]@);
            }
            if let Some(name) = offer(names[i].as_str(), extensions, with_extension) {
                files.push(name);
                assert(texts(files@) =~= texts(before).push(
                    offered_name(names@[i as int]@, with_extension),
                ));
            }
            i = i + 1;
        }
        assert(texts(names@).take(i as int) =~= texts(names@));
        files
    }

    /// Lists the files of a directory that have one of some extensions, in order, each once.
    pub fn get_files_from_path(
        &self,
        names: &Vec<String>,
        extensions: &Vec<&str>,
        with_extension: bool,
    ) -> (files: Vec<String>)
        ensures
            texts(files@) == listing(texts(names@), str_texts(extensions@), with_extension),
    {
        let files = self.get_files_from_drive(names, extensions, with_extension);
        drop_repeats(sort_names(files))
    }

    /// Lists the profiles among the files of their directory.
    pub fn get_profiles(&self, names: &Vec<String>) -> (files: Vec<String>)
        ensures
            texts(files@) == listing(texts(names@), seq!["goxlr"@], false),
    {
        let extensions = one_extension("goxlr");
        self.get_files_from_path(names, &extensions, false)
    }

    /// Lists the microphone profiles among the files of their directory.
    pub fn get_mic_profiles(&self, names: &Vec<String>) -> (files: Vec<String>)
        ensures
            texts(files@) == listing(texts(names@), seq!["goxlrMicProfile"@], false),
    {
        let extensions = one_extension("goxlrMicProfile");
        self.get_files_from_path(names, &extensions, false)
    }

    /// Lists the presets among the files of their directory.
    pub fn get_presets(&self, names: &Vec<String>) -> (files: Vec<String>)
        ensures
            texts(files@) == listing(texts(names@), seq!["preset"@], false),
    {
        let extensions = one_extension("preset");
        self.get_files_from_path(names, &extensions, false)
    }

    /// Lists the icons among the files of their directory, with their extensions.
    pub fn get_icons(&self, names: &Vec<String>) -> (files: Vec<String>)
        ensures
            texts(files@) == listing(texts(names@), seq!["gif"@, "jpg"@, "png"@], true),
    {
        let mut extensions: Vec<&str> = Vec::new();
        extensions.push("gif");
        extensions.push("jpg");
        extensions.push("png");
        assert(str_texts(extensions@) =~= seq!["gif"@, "jpg"@, "png"@]);
        self.get_files_from_path(names, &extensions, true)
    }

    /// Lists the samples by their paths below the directory of the samples, each with the name of
    /// its file. `paths` are the whole paths of the samples.
    pub fn get_samples(&self, paths: &Vec<String>, windows: bool) -> (samples: Registry<String>)
        requires
            forall|i: int|
                0 <= i < paths@.len() ==> begins_with(
                    #[trigger] paths@[i]@,
                    self.paths.samples@,
                ) && paths@[i]@.len() > self.paths.samples@.len(),
        ensures
            forall|key: Seq<char>| #[trigger]
                samples@.dom().contains(key) <==> is_sample_key(
                    texts(paths@),
                    self.paths.samples@,
                    paths@.len() as int,
                    key,
                ),
            forall|key: Seq<char>| #[trigger]
                samples@.dom().contains(key) ==> samples@[key]@ == file_of(key, windows),
    {
        let mut samples: Registry<String> = Registry::new();
        let start: usize = self.paths.samples.as_str().unicode_len();
        let mut i: usize = 0;
        while i < paths.len()
            invariant
                i <= paths@.len(),
                start == self.paths.samples@.len(),
                forall|j: int|
                    0 <= j < paths@.len() ==> begins_with(
                        #[trigger] paths@[j]@,
                        self.paths.samples@,
                    ) && paths@[j]@.len() > self.paths.samples@.len(),
                forall|key: Seq<char>| #[trigger]
                    samples@.dom().contains(key) <==> is_sample_key(
                        texts(paths@),
                        self.paths.samples@,
                        i as int,
                        key,
                    ),
                forall|key: Seq<char>| #[trigger]
                    samples@.dom().contains(key) ==> samples@[key]@ == file_of(key, windows),
            decreases paths@.len() - i,
        {
            let ghost known = samples@;
            let chars = chars_of(paths[i].as_str());
            assert(begins_with(paths@[i as int]@, self.paths.samples@));
            let length: usize = chars.len();
            let key = text_between(&chars, start + 1, length);
            assert(key@ =~= paths@[i as int]@.skip(start + 1));
            let name = file_name(key.as_str(), windows);
            samples.insert(key, name);
            proof {
                let base = self.paths.samples@;
                assert forall|other: Seq<char>| #[trigger] samples@.dom().contains(
                    other,
                ) <==> is_sample_key(texts(paths@), base, i + 1, other) by {
                    if is_sample_key(texts(paths@), base, i + 1, other) {
                        let j = choose|j: int|
                            0 <= j < i + 1 && #[trigger] texts(paths@)[j].skip(base.len() as int + 1)
                                == other;
                        if j < i {
                            assert(is_sample_key(texts(paths@), base, i as int, other));
                            assert(known.dom().contains(other));
                        }
                    }
                    if known.dom().contains(other) {
                        assert(is_sample_key(texts(paths@), base, i as int, other));
                    }
                    if other == key@ {
                        assert(texts(paths@)[i as int].skip(base.len() as int + 1) == other);
                    }
                }
            }
            i = i + 1;
        }
        samples
    }
}

/// The names under which files are listed.
pub open spec fn listing(names: Seq<Seq<char>>, extensions: Seq<Seq<char>>, with_extension: bool) -> Seq<
    Seq<char>,
> {
    without_repeats(sorted_names(offered(names, extensions, with_extension)))
}

/// A list of one extension.
fn one_extension(extension: &'static str) -> (extensions: Vec<&'static str>)
    ensures
        str_texts(extensions@) == seq![extension@],
{
    let mut extensions: Vec<&'static str> = Vec::new();
    extensions.push(extension);
    assert(str_texts(extensions@) =~= seq![extension@]);
    extensions
}

/// Whether one of the first `end` paths is this one below a directory.
pub open spec fn is_sample_key(paths: Seq<Seq<char>>, base: Seq<char>, end: int, key: Seq<char>) -> bool {
    exists|i: int| 0 <= i < end && #[trigger] paths[i].skip(base.len() as int + 1) == key
}

/// The name of the file at a path: what stands behind the last separator.
pub open spec fn file_of(path: Seq<char>, windows: bool) -> Seq<char> {
    split_on(with_slashes(path, windows), '/').last()
}

/// Names the file at a path.
pub fn file_name(path: &str, windows: bool) -> (name: String)
    ensures
        name@ == file_of(path@, windows),
{
    let parts = split_chars(&slashed_chars(path, windows), '/');
    proof {
        lemma_split_has_parts(with_slashes(path@, windows), '/');
    }
    let name = text_of(parts[parts.len() - 1].as_slice());
    name
}

/// A text has at least one part.
proof fn lemma_split_has_parts(text: Seq<char>, separator: char)
    ensures
        split_on(text, separator).len() > 0,
    decreases text.len(),
{
    if text.len() > 0 {
        lemma_split_has_parts(text.drop_last(), separator);
    }
}

/// Only files with an extension that was asked for are listed, and all of those are.
pub proof fn listing_is_complete(
    names: Seq<Seq<char>>,
    extensions: Seq<Seq<char>>,
    with_extension: bool,
    name: Seq<char>,
)
    ensures
        listing(names, extensions, with_extension).contains(name) <==> exists|i: int|
            0 <= i < names.len() && has_extension(#[trigger] names[i], extensions) && offered_name(
                names[i],
                with_extension,
            ) == name,
{
    broadcast use vstd::seq_lib::group_to_multiset_ensures;

    let found = offered(names, extensions, with_extension);
    lemma_offered(names, extensions, with_extension, name);
    sorting_keeps_names(found);
    repeats_dropped(sorted_names(found));
    assert(sorted_names(found).contains(name) <==> sorted_names(found).to_multiset().count(name)
        > 0);
    assert(found.contains(name) <==> found.to_multiset().count(name) > 0);
}

/// A name is offered exactly if a file with an extension that was asked for has it.
proof fn lemma_offered(
    names: Seq<Seq<char>>,
    extensions: Seq<Seq<char>>,
    with_extension: bool,
    name: Seq<char>,
)
    ensures
        offered(names, extensions, with_extension).contains(name) <==> exists|i: int|
            0 <= i < names.len() && has_extension(#[trigger] names[i], extensions) && offered_name(
                names[i],
                with_extension,
            ) == name,
    decreases names.len(),
{
    if names.len() > 0 {
        let front = names.drop_last();
        let found = offered(names, extensions, with_extension);
        let before = offered(front, extensions, with_extension);
        lemma_offered(front, extensions, with_extension, name);
        let last = names.len() - 1;
        assert(names[last] == names.last());
        if found.contains(name) {
            let k = found.index_of(name);
            if k < before.len() {
                assert(before[k] == name);
                let i = choose|i: int|
                    0 <= i < front.len() && has_extension(#[trigger] front[i], extensions)
                        && offered_name(front[i], with_extension) == name;
                assert(names[i] == front[i]);
            }
        }
        if exists|i: int|
            0 <= i < names.len() && has_extension(#[trigger] names[i], extensions) && offered_name(
                names[i],
                with_extension,
            ) == name {
            let i = choose|i: int|
                0 <= i < names.len() && has_extension(#[trigger] names[i], extensions)
                    && offered_name(names[i], with_extension) == name;
            if i < last {
                assert(front[i] == names[i]);
                let k = before.index_of(name);
                assert(found[k] == name);
            } else {
                assert(found[found.len() - 1] == name);
            }
        }
    }
}

/// What happened to a file.
#[derive(Clone, Copy, Debug, PartialEq, Eq, Structural)]
pub enum FileEvent {
    Created,
    Removed,
    Renamed,
    /// Anything else, such as a change of the contents.
    Other,
}

/// Below which directories a path is.
#[derive(Clone, Copy, Debug, PartialEq, Eq, Structural)]
pub struct Below {
    pub profiles: bool,
    pub mic_profiles: bool,
    pub icons: bool,
    pub presets: bool,
    pub samples: bool,
}

/// Finds which kind of files has to be listed anew after an event.
pub fn changed_files(event: FileEvent, below: Below) -> (kind: Option<PathTypes>)
    ensures
        kind == (if event == FileEvent::Other {
            None
        } else if below.profiles {
            Some(PathTypes::Profiles)
        } else if below.mic_profiles {
            Some(PathTypes::MicProfiles)
        } else if below.icons {
            Some(PathTypes::Icons)
        } else if below.presets {
            Some(PathTypes::Presets)
        } else if below.samples {
            Some(PathTypes::Samples)
        } else {
            None
        }),
{
    if event == FileEvent::Other {
        return None;
    }
    if below.profiles {
        return Some(PathTypes::Profiles);
    }
    if below.mic_profiles {
        return Some(PathTypes::MicProfiles);
    }
    if below.icons {
        return Some(PathTypes::Icons);
    }
    if below.presets {
        return Some(PathTypes::Presets);
    }
    if below.samples {
        return Some(PathTypes::Samples);
    }
    None
}

/// Why a file cannot be created.
#[derive(Clone, Copy, Debug, PartialEq, Eq, Structural)]
pub enum NewFileError {
    NoParent,
    Exists,
    /// An empty file could not be created.
    NotCreated,
    /// The empty file could not be removed again.
    NotRemoved,
}

/// Decides whether a file can be created. `parent` says whether the directory above is there; nothing
/// where there is no such directory. An empty file is created and removed again, where the directory
/// is there and the file is not, and the last two say whether that succeeded.
pub fn can_create_new_file(parent: Option<bool>, exists: bool, created: bool, removed: bool) -> (result:
    Result<(), NewFileError>)
    ensures
        result.err() == (if parent == Some(false) {
            Some(NewFileError::NoParent)
        } else if exists {
            Some(NewFileError::Exists)
        } else if !created {
            Some(NewFileError::NotCreated)
        } else if !removed {
            Some(NewFileError::NotRemoved)
        } else {
            None
        }),
{
    if let Some(false) = parent {
        return Err(NewFileError::NoParent);
    }
    if exists {
        return Err(NewFileError::Exists);
    }
    if !created {
        return Err(NewFileError::NotCreated);
    }
    if !removed {
        return Err(NewFileError::NotRemoved);
    }
    Ok(())
}

/// The kind of files, as the program that writes the first files of a kind takes it.
pub open spec fn defaults_argument(kind: PathTypes) -> Option<Seq<char>> {
    match kind {
        PathTypes::Profiles => Some("profiles"@),
        PathTypes::MicProfiles => Some("mic-profiles"@),
        PathTypes::Presets => Some("presets"@),
        PathTypes::Icons => Some("icons"@),
        _ => None,
    }
}

/// Names the kind of files for the program that writes the first files of a kind.
pub fn get_defaults_argument(kind: PathTypes) -> (argument: Option<String>)
    ensures
        argument is Some <==> defaults_argument(kind) is Some,
        argument is Some ==> argument->0@ == defaults_argument(kind)->0,
{
    match kind {
        PathTypes::Profiles => Some("profiles".to_owned()),
        PathTypes::MicProfiles => Some("mic-profiles".to_owned()),
        PathTypes::Presets => Some("presets".to_owned()),
        PathTypes::Icons => Some("icons".to_owned()),
        _ => None,
    }
}

/// Names the program that writes the first files of a kind.
pub fn defaults_binary(windows: bool) -> (name: String)
    ensures
        name@ == (if windows {
            "goxlr-defaults.exe"@
        } else {
            "goxlr-defaults"@
        }),
{
    if windows {
        "goxlr-defaults.exe".to_owned()
    } else {
        "goxlr-defaults".to_owned()
    }
}

/// Where the program that writes the first files is taken from.
#[derive(Clone, Copy, Debug, PartialEq, Eq, Structural)]
pub enum BinaryPlace {
    CurrentDirectory,
    OwnDirectory,
    SearchPath,
}

/// Decides where the program is taken from, given where it is.
pub fn defaults_place(in_current: bool, in_own: bool) -> (place: BinaryPlace)
    ensures
        place == (if in_current {
            BinaryPlace::CurrentDirectory
        } else if in_own {
            BinaryPlace::OwnDirectory
        } else {
            BinaryPlace::SearchPath
        }),
{
    if in_current {
        BinaryPlace::CurrentDirectory
    } else if in_own {
        BinaryPlace::OwnDirectory
    } else {
        BinaryPlace::SearchPath
    }
}

/// Judges how the program ended: an exit code is an error, unless the program succeeded. Being
/// stopped by a signal, which leaves no code, is none.
pub fn extract_defaults(success: bool, code: Option<i32>) -> (result: Result<(), i32>)
    ensures
        result.err() == (if success {
            None
        } else {
            code
        }),
{
    if !success {
        if let Some(code) = code {
            return Err(code);
        }
    }
    Ok(())
}

} // verus!
