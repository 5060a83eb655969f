use vstd::prelude::*;

verus! {

/// A song found in the music directory.
#[derive(Debug)]
pub struct TrackAudio {
    /// Where the audio file lies.
    pub path: String,
    pub track_title: String,
    pub track_artist: String,
    /// Length of the track, in seconds.
    pub track_duration: u64,
}

/// One item met while walking the music directory.
#[derive(Debug)]
pub struct WalkedEntry {
    /// The item's path, as text.
    pub path: String,
    /// Whether the item is a regular file.
    pub is_file: bool,
}

/// `c` with an ASCII capital letter turned into its small letter.
pub open spec fn ascii_lower(c: char) -> char {
    if 'A' <= c && c <= 'Z' {
        ((c as u32) + 32) as char
    } else {
        c
    }
}

/// The position of the last `c` in `s`, or -1 where `s` holds none.
pub open spec fn last_index_of(s: Seq<char>, c: char) -> int
    decreases s.len(),
{
    if s.len() == 0 {
        -1
    } else if s.last() == c {
        s.len() - 1
    } else {
        last_index_of(s.drop_last(), c)
    }
}

/// The last component of a path, where it names something: separators at the
/// end and `.` components are passed over, and a path that ends in `..` (or
/// has no component left) has no file name.
pub open spec fn file_name(path: Seq<char>) -> Option<Seq<char>>
    decreases path.len(),
{
    if path.len() == 0 {
        None
    } else if path.last() == '/' {
        file_name(path.drop_last())
    } else {
        let name = path.skip(last_index_of(path, '/') + 1);
        if name == seq!['.'] {
            file_name(path.drop_last())
        } else if name == seq!['.', '.'] {
            None
        } else {
            Some(name)
        }
    }
}

/// The extension of a file name: the text after its last `.`; a name without
/// a `.`, one whose only `.` is its first character, and `..` have none.
pub open spec fn extension(name: Seq<char>) -> Option<Seq<char>> {
    let k = last_index_of(name, '.');
    if name == seq!['.', '.'] || k <= 0 {
        None
    } else {
        Some(name.skip(k + 1))
    }
}

/// The stem of a file name: the name without its extension.
pub open spec fn file_stem(name: Seq<char>) -> Seq<char> {
    let k = last_index_of(name, '.');
    if name == seq!['.', '.'] || k <= 0 {
        name
    } else {
        name.take(k)
    }
}

/// The title a song takes from its path: the stem of its file name, or
/// nothing where the path has no file name.
pub open spec fn path_title(path: Seq<char>) -> Seq<char> {
    match file_name(path) {
        Some(name) => file_stem(name),
        None => Seq::empty(),
    }
}

/// The extensions of the audio formats that the player plays.
pub open spec fn is_music_extension(ext: Seq<char>) -> bool {
    let lower = ext.map_values(|c: char| ascii_lower(c));
    ||| lower == seq!['m', 'p', '3']
    ||| lower == seq!['w', 'a', 'v']
    ||| lower == seq!['f', 'l', 'a', 'c']
    ||| lower == seq!['o', 'g', 'g']
    ||| lower == seq!['m', '4', 'a']
}

/// A path names a music file when its file name has one of the audio
/// extensions, in any case.
pub open spec fn is_music_path(path: Seq<char>) -> bool {
    match file_name(path) {
        Some(name) => match extension(name) {
            Some(ext) => is_music_extension(ext),
            None => false,
        },
        None => false,
    }
}

/// A file name is hidden when it starts with a `.`; a name that is not
/// valid text is not.
pub open spec fn is_hidden_name(name: Option<Seq<char>>) -> bool {
    match name {
        Some(n) => n.len() > 0 && n[0] == '.',
        None => false,
    }
}

/// The paths of the music files among walked entries, in walking order.
pub open spec fn music_paths(entries: Seq<WalkedEntry>) -> Seq<Seq<char>>
    decreases entries.len(),
{
    if entries.len() == 0 {
        seq![]
    } else {
        let rest = music_paths(entries.drop_last());
        let e = entries.last();
        if e.is_file && is_music_path(e.path@) {
            rest.push(e.path@)
        } else {
            rest
        }
    }
}

fn lower_char(c: char) -> (r: char)
    ensures
        r == ascii_lower(c),
{
    if 'A' <= c && c <= 'Z' {
        ((c as u8) + 32) as char
    } else {
        c
    }
}

fn chars_of(s: &str) -> (v: Vec<char>)
    ensures
        v@ == s@,
{
    let n = s.unicode_len();
    let mut v: Vec<char> = Vec::new();
    let mut i: usize = 0;
    while i < n
        invariant
            n == s@.len(),
            i <= n,
            v@ == s@.take(i as int),
        decreases n - i,
    {
        let c = s.get_char(i);
        v.push(c);
        i = i + 1;
        assert(v@ =~= s@.take(i as int));
    }
    assert(s@.take(n as int) =~= s@);
    v
}

/// The last position of `c` in `v[start..end]`, counted from the start of `v`.
fn rfind(v: &Vec<char>, start: usize, end: usize, c: char) -> (r: Option<usize>)
    requires
        start <= end <= v@.len(),
    ensures
        match r {
            Some(k) => start <= k < end && last_index_of(v@.subrange(start as int, end as int), c)
                == k - start,
            None => last_index_of(v@.subrange(start as int, end as int), c) == -1,
        },
{
    let mut i = end;
    while i > start
        invariant
            start <= i <= end <= v@.len(),
            last_index_of(v@.subrange(start as int, end as int), c) == last_index_of(
                v@.subrange(start as int, i as int),
                c,
            ),
        decreases i,
    {
        let ghost sub = v@.subrange(start as int, i as int);
        assert(sub.last() == v@[i - 1]);
        if v[i - 1] == c {
            return Some(i - 1);
        }
        assert(sub.drop_last() =~= v@.subrange(start as int, i - 1));
        i = i - 1;
    }
    None
}

/// The bounds of the file name of the path `v`, where it has one.
fn file_name_bounds(v: &Vec<char>) -> (r: Option<(usize, usize)>)
    ensures
        match r {
            Some((s, e)) => s <= e <= v@.len() && file_name(v@) == Some(
                v@.subrange(s as int, e as int),
            ) && v@.subrange(s as int, e as int) != seq!['.', '.'],
            None => file_name(v@) is None,
        },
{
    let mut end = v.len();
    assert(v@.take(end as int) =~= v@);
    while end > 0
        invariant
            end <= v@.len(),
            file_name(v@) == file_name(v@.take(end as int)),
        decreases end,
    {
        let ghost p = v@.take(end as int);
        assert(p.last() == v@[end - 1]);
        assert(p.drop_last() =~= v@.take(end - 1));
        if v[end - 1] == '/' {
            end = end - 1;
        } else {
            let start = match rfind(v, 0, end, '/') {
                Some(k) => k + 1,
                None => 0,
            };
            assert(v@.subrange(0, end as int) =~= p);
            let ghost name = p.skip(last_index_of(p, '/') + 1);
            assert(name =~= v@.subrange(start as int, end as int));
            if end - start == 1 && v[start] == '.' {
                assert(name =~= seq!['.']);
                end = end - 1;
            } else if end - start == 2 && v[start] == '.' && v[start + 1] == '.' {
                assert(name =~= seq!['.', '.']);
                return None;
            } else {
                assert(name != seq!['.']) by {
                    if name.len() == 1 {
                        assert(name[0] == v@[start as int]);
                    }
                }
                assert(name != seq!['.', '.']) by {
                    if name.len() == 2 {
                        assert(name[0] == v@[start as int]);
                        assert(name[1] == v@[start + 1]);
                    }
                }
                return Some((start, end));
            }
        }
    }
    None
}

/// Whether `v[start..end]`, with ASCII capitals made small, reads `target`.
fn lower_matches(v: &Vec<char>, start: usize, end: usize, target: &Vec<char>) -> (r: bool)
    requires
        start <= end <= v@.len(),
    ensures
        r == (v@.subrange(start as int, end as int).map_values(|c: char| ascii_lower(c))
            == target@),
{
    let ghost lower = v@.subrange(start as int, end as int).map_values(|c: char| ascii_lower(c));
    if end - start != target.len() {
        return false;
    }
    let mut i: usize = 0;
    while i < target.len()
        invariant
            start <= end <= v@.len(),
            end - start == target@.len(),
            lower == v@.subrange(start as int, end as int).map_values(|c: char| ascii_lower(c)),
            i <= target@.len(),
            forall|j: int| 0 <= j < i ==> lower[j] == target@[j],
        decreases target@.len() - i,
    {
        let c = lower_char(v[start + i]);
        assert(lower[i as int] == ascii_lower(v@[start + i]));
        if c != target[i] {
            return false;
        }
        i = i + 1;
    }
    assert(lower =~= target@);
    true
}

fn is_music_extension_at(v: &Vec<char>, start: usize, end: usize) -> (r: bool)
    requires
        start <= end <= v@.len(),
    ensures
        r == is_music_extension(v@.subrange(start as int, end as int)),
{
    lower_matches(v, start, end, &vec!['m', 'p', '3'])
        || lower_matches(v, start, end, &vec!['w', 'a', 'v'])
        || lower_matches(v, start, end, &vec!['f', 'l', 'a', 'c'])
        || lower_matches(v, start, end, &vec!['o', 'g', 'g'])
        || lower_matches(v, start, end, &vec!['m', '4', 'a'])
}

/// Whether `path` names a music file: its file name's extension, in any
/// case, is one of `mp3`, `wav`, `flac`, `ogg` and `m4a`.
pub fn is_music(path: &str) -> (r: bool)
    ensures
        r == is_music_path(path@),
{
    let v = chars_of(path);
    match file_name_bounds(&v) {
        None => false,
        Some((s, e)) => {
            let ghost name = v@.subrange(s as int, e as int);
            match rfind(&v, s, e, '.') {
                None => false,
                Some(k) => {
                    if k == s {
                        false
                    } else {
                        assert(name.skip(k - s + 1) =~= v@.subrange(k + 1, e as int));
                        is_music_extension_at(&v, k + 1, e)
                    }
                },
            }
        },
    }
}

/// The title a song takes from its path: the stem of its file name, or the
/// empty text where the path has no file name.
pub fn title_from_path(path: &str) -> (title: String)
    ensures
        title@ == path_title(path@),
{
    let v = chars_of(path);
    match file_name_bounds(&v) {
        None => {
            let title = String::new();
            title
        },
        Some((s, e)) => {
            let ghost name = v@.subrange(s as int, e as int);
            let stop = match rfind(&v, s, e, '.') {
                None => e,
                Some(k) => if k == s {
                    e
                } else {
                    k
                },
            };
            assert(name.take(stop - s) =~= v@.subrange(s as int, stop as int));
            assert(name =~= v@.subrange(s as int, e as int));
            path.substring_char(s, stop).to_owned()
        },
    }
}

/// Whether a directory entry is hidden: its file name, where it is valid
/// text, starts with a `.`.
pub fn is_hidden(file_name: Option<&str>) -> (r: bool)
    ensures
        r == is_hidden_name(
            match file_name {
                Some(n) => Some(n@),
                None => None,
            },
        ),
{
    match file_name {
        Some(n) => n.unicode_len() > 0 && n.get_char(0) == '.',
        None => false,
    }
}

/// The paths of the music files among the entries of a walk of the music
/// directory, in the order of the walk: the regular files whose path
/// `is_music`.
pub fn music_files(entries: &Vec<WalkedEntry>) -> (paths: Vec<String>)
    ensures
        paths@.map_values(|p: String| p@) == music_paths(entries@),
{
    let mut paths: Vec<String> = Vec::new();
    let mut i: usize = 0;
    while i < entries.len()
        invariant
            i <= entries@.len(),
            paths@.map_values(|p: String| p@) == music_paths(entries@.take(i as int)),
        decreases entries@.len() - i,
    {
        let e = &entries[i];
        assert(entries@.take(i + 1).drop_last() =~= entries@.take(i as int));
        assert(entries@.take(i + 1).last() == entries@[i as int]);
        if e.is_file && is_music(e.path.as_str()) {
            paths.push(e.path.clone());
        }
        i = i + 1;
        assert(paths@.map_values(|p: String| p@) =~= music_paths(entries@.take(i as int)));
    }
    assert(entries@.take(entries@.len() as int) =~= entries@);
    paths
}

proof fn lemma_last_index_of_skips(a: Seq<char>, b: Seq<char>, c: char)
    requires
        forall|i: int| 0 <= i < b.len() ==> b[i] != c,
    ensures
        last_index_of(a + b, c) == last_index_of(a, c),
    decreases b.len(),
{
    if b.len() == 0 {
        assert(a + b =~= a);
    } else {
        assert((a + b).drop_last() =~= a + b.drop_last());
        assert((a + b).last() == b.last());
        lemma_last_index_of_skips(a, b.drop_last(), c);
    }
}

proof fn lemma_file_name_last_component(dir: Seq<char>, name: Seq<char>)
    requires
        name.len() > 2,
        forall|i: int| 0 <= i < name.len() ==> name[i] != '/',
    ensures
        file_name(dir + seq!['/'] + name) == Some(name),
{
    let path = dir + seq!['/'] + name;
    lemma_last_index_of_skips(dir + seq!['/'], name, '/');
    assert((dir + seq!['/']).last() == '/');
    assert(path =~= (dir + seq!['/']) + name);
    assert(path.last() == name.last());
    assert(path.skip(dir.len() as int + 1) =~= name);
    assert(name != seq!['.']);
    assert(name != seq!['.', '.']);
}

/// A file is recognised by the text after the last `.` of its name, in any
/// case: whatever the directory, and whatever dots come earlier in the name,
/// `dir/stem.ext` is a music path exactly when `ext` is `mp3`, `wav`, `flac`,
/// `ogg` or `m4a` with capitals allowed.
pub proof fn lemma_music_by_last_extension(dir: Seq<char>, stem: Seq<char>, ext: Seq<char>)
    requires
        stem.len() > 0,
        forall|i: int| 0 <= i < stem.len() ==> stem[i] != '/',
        forall|i: int| 0 <= i < ext.len() ==> ext[i] != '/' && ext[i] != '.',
    ensures
        is_music_path(dir + seq!['/'] + (stem + seq!['.'] + ext)) == ({
            let lower = ext.map_values(|c: char| ascii_lower(c));
            ||| lower == seq!['m', 'p', '3']
            ||| lower == seq!['w', 'a', 'v']
            ||| lower == seq!['f', 'l', 'a', 'c']
            ||| lower == seq!['o', 'g', 'g']
            ||| lower == seq!['m', '4', 'a']
        }),
{
    let name = stem + seq!['.'] + ext;
    assert forall|i: int| 0 <= i < name.len() implies name[i] != '/' by {
        if i < stem.len() {
            assert(name[i] == stem[i]);
        } else if i > stem.len() {
            assert(name[i] == ext[i - stem.len() - 1]);
        }
    }
    if name.len() > 2 {
        lemma_file_name_last_component(dir, name);
    } else {
        // a name of two characters at most: `s.` with no extension
        assert(ext.len() == 0);
        let path = dir + seq!['/'] + name;
        lemma_last_index_of_skips(dir + seq!['/'], name, '/');
        assert((dir + seq!['/']).last() == '/');
        assert(path =~= (dir + seq!['/']) + name);
        assert(path.last() == name.last());
        assert(path.skip(dir.len() as int + 1) =~= name);
        if name == seq!['.', '.'] {
            assert(file_name(path) is None);
        } else {
            assert(name != seq!['.']);
            assert(file_name(path) == Some(name));
        }
        assert(ext.map_values(|c: char| ascii_lower(c)).len() == 0);
    }
    lemma_last_index_of_skips(stem + seq!['.'], ext, '.');
    assert(name =~= (stem + seq!['.']) + ext);
    assert((stem + seq!['.']).last() == '.');
    assert(last_index_of(name, '.') == stem.len());
    assert(name.skip(stem.len() as int + 1) =~= ext);
}

/// A file name without a `.` has no extension, so it never names a music
/// file, whatever the directory.
pub proof fn lemma_no_dot_not_music(dir: Seq<char>, name: Seq<char>)
    requires
        name.len() > 0,
        forall|i: int| 0 <= i < name.len() ==> name[i] != '/' && name[i] != '.',
    ensures
        !is_music_path(dir + seq!['/'] + name),
{
    let path = dir + seq!['/'] + name;
    lemma_last_index_of_skips(dir + seq!['/'], name, '/');
    lemma_last_index_of_skips(Seq::<char>::empty(), name, '.');
    assert(Seq::<char>::empty() + name =~= name);
    assert((dir + seq!['/']).last() == '/');
    assert(path =~= (dir + seq!['/']) + name);
    assert(path.last() == name.last());
    assert(path.skip(dir.len() as int + 1) =~= name);
    assert(name != seq!['.'] && name != seq!['.', '.']) by {
        assert(name[0] != '.');
    }
}

/// The music files of a walk are exactly the regular files among its
/// entries whose path is a music path, wherever they lie in the walk: each
/// such entry's path is listed, and every listed path is such an entry's.
pub proof fn lemma_music_files_are_the_music_entries(entries: Seq<WalkedEntry>)
    ensures
        forall|i: int|
            0 <= i < entries.len() && entries[i].is_file && is_music_path(entries[i].path@)
                ==> music_paths(entries).contains(#[trigger] entries[i].path@),
        forall|j: int|
            0 <= j < music_paths(entries).len() ==> exists|i: int|
                0 <= i < entries.len() && entries[i].is_file && is_music_path(entries[i].path@)
                    && entries[i].path@ == #[trigger] music_paths(entries)[j],
        music_paths(entries).len() <= entries.len(),
    decreases entries.len(),
{
    if entries.len() > 0 {
        let init = entries.drop_last();
        lemma_music_files_are_the_music_entries(init);
        let rest = music_paths(init);
        let e = entries.last();
        assert forall|i: int|
            0 <= i < entries.len() && entries[i].is_file && is_music_path(entries[i].path@)
                implies music_paths(entries).contains(#[trigger] entries[i].path@) by {
            if i < entries.len() - 1 {
                assert(init[i] == entries[i]);
                assert(rest.contains(init[i].path@));
                let k = choose|k: int| 0 <= k < rest.len() && rest[k] == init[i].path@;
                if e.is_file && is_music_path(e.path@) {
                    assert(rest.push(e.path@)[k] == rest[k]);
                }
            } else {
                assert(music_paths(entries) == rest.push(e.path@));
                assert(rest.push(e.path@)[rest.len() as int] == e.path@);
            }
        }
        assert forall|j: int| 0 <= j < music_paths(entries).len() implies exists|i: int|
            0 <= i < entries.len() && entries[i].is_file && is_music_path(entries[i].path@)
                && entries[i].path@ == #[trigger] music_paths(entries)[j] by {
            if j < rest.len() {
                let i = choose|i: int|
                    0 <= i < init.len() && init[i].is_file && is_music_path(init[i].path@)
                        && init[i].path@ == #[trigger] rest[j];
                assert(entries[i] == init[i]);
                if e.is_file && is_music_path(e.path@) {
                    assert(rest.push(e.path@)[j] == rest[j]);
                }
            } else {
                let i = entries.len() - 1;
                assert(entries[i] == e);
            }
        }
    }
}

/// An entry is hidden exactly when its name starts with a dot: a name that
/// starts with `.` is hidden whatever follows, one that starts with anything
/// else is not, and neither is an empty name or one that is not valid text.
pub proof fn lemma_hidden_by_leading_dot(rest: Seq<char>, c: char)
    ensures
        is_hidden_name(Some(seq!['.'] + rest)),
        c != '.' ==> !is_hidden_name(Some(seq![c] + rest)),
        !is_hidden_name(Some(Seq::<char>::empty())),
        !is_hidden_name(None),
{
    assert((seq!['.'] + rest)[0] == '.');
    assert((seq![c] + rest)[0] == c);
}

/// The music files keep the order of the walk: those of a walk that goes
/// through `first` and then `second` are those of `first` followed by those
/// of `second`.
pub proof fn lemma_music_files_keep_walk_order(first: Seq<WalkedEntry>, second: Seq<WalkedEntry>)
    ensures
        music_paths(first + second) == music_paths(first) + music_paths(second),
    decreases second.len(),
{
    if second.len() == 0 {
        assert(first + second =~= first);
        assert(music_paths(first) + music_paths(second) =~= music_paths(first));
    } else {
        lemma_music_files_keep_walk_order(first, second.drop_last());
        assert((first + second).drop_last() =~= first + second.drop_last());
        assert((first + second).last() == second.last());
        let e = second.last();
        if e.is_file && is_music_path(e.path@) {
            assert(music_paths(first) + music_paths(second) =~= (music_paths(first)
                + music_paths(second.drop_last())).push(e.path@));
        }
    }
}

} // verus!
