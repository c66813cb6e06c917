//! Tracks of the library and how their shown name and album are derived from
//! the metadata read from an audio file.
use vstd::prelude::*;

verus! {

/// Album shown for a file whose tags name none, or that has no tags at all.
pub const UNKNOWN_ALBUM: &'static str = "Desconocido";

/// An audio file of the library.
#[derive(Clone, Debug)]
pub struct Track {
    pub path: String,
    pub display_name: String,
    pub album: String,
    pub duration_secs: u64,
    pub bitrate: u32,
}

/// The text fields of one tag of an audio file.
#[derive(Clone, Debug)]
pub struct TagInfo {
    pub title: Option<String>,
    pub artist: Option<String>,
    pub album: Option<String>,
}

/// What could be read from an audio file: its properties and its tags.
#[derive(Clone, Debug)]
pub struct FileInfo {
    pub duration_secs: u64,
    pub bitrate: Option<u32>,
    pub primary_tag: Option<TagInfo>,
    pub first_tag: Option<TagInfo>,
}

/// A string field's characters, or `default` when the field is absent.
pub open spec fn field_or(f: Option<String>, default: Seq<char>) -> Seq<char> {
    match f {
        Some(s) => s@,
        None => default,
    }
}

/// The tag that is read: the primary tag, or else the first tag of the file.
pub open spec fn chosen_tag(info: FileInfo) -> Option<TagInfo> {
    match info.primary_tag {
        Some(t) => Some(t),
        None => info.first_tag,
    }
}

/// The tag read from what the file gave, if any.
pub open spec fn read_tag(probe: Option<FileInfo>) -> Option<TagInfo> {
    match probe {
        Some(info) => chosen_tag(info),
        None => None,
    }
}

/// Title read from the tag; empty when there is none.
pub open spec fn spec_title(probe: Option<FileInfo>) -> Seq<char> {
    match read_tag(probe) {
        Some(t) => field_or(t.title, Seq::empty()),
        None => Seq::empty(),
    }
}

/// Artist read from the tag; empty when there is none.
pub open spec fn spec_artist(probe: Option<FileInfo>) -> Seq<char> {
    match read_tag(probe) {
        Some(t) => field_or(t.artist, Seq::empty()),
        None => Seq::empty(),
    }
}

/// Album read from the tag; "Desconocido" when the tag or its album is missing.
pub open spec fn spec_album(probe: Option<FileInfo>) -> Seq<char> {
    match read_tag(probe) {
        Some(t) => field_or(t.album, UNKNOWN_ALBUM@),
        None => UNKNOWN_ALBUM@,
    }
}

/// The name shown for a track: the file name when there is no title, the title
/// when there is no artist, and "artist - title" otherwise.
pub open spec fn spec_display_name(file_name: Seq<char>, title: Seq<char>, artist: Seq<char>) -> Seq<char> {
    if title.len() == 0 {
        file_name
    } else if artist.len() == 0 {
        title
    } else {
        artist + " - "@ + title
    }
}

fn field_string(f: &Option<String>, default: &str) -> (s: String)
    ensures
        s@ == field_or(*f, default@),
{
    match f {
        Some(v) => v.clone(),
        None => String::from_str(default),
    }
}

/// Whether `t` is the track of the file at `path`, named `file_name`, given
/// what could be read of it: the shown name from title, artist or file name,
/// the album ("Desconocido" by default), the length and the bit rate (0 when
/// unknown).
pub open spec fn track_from(t: Track, path: Seq<char>, file_name: Seq<char>, probe: Option<FileInfo>) -> bool {
    &&& t.path@ == path
    &&& t.display_name@ == spec_display_name(file_name, spec_title(probe), spec_artist(probe))
    &&& t.album@ == spec_album(probe)
    &&& t.duration_secs == (match probe { Some(i) => i.duration_secs, None => 0 })
    &&& t.bitrate == (match probe {
        Some(i) => match i.bitrate { Some(b) => b, None => 0 },
        None => 0,
    })
}

fn copy_field(f: &Option<String>) -> (r: Option<String>)
    ensures
        r == *f,
{
    match f {
        Some(s) => Some(s.clone()),
        None => None,
    }
}

fn copy_tag(t: &Option<TagInfo>) -> (r: Option<TagInfo>)
    ensures
        r == *t,
{
    match t {
        Some(t) => Some(TagInfo { title: copy_field(&t.title), artist: copy_field(&t.artist), album: copy_field(&t.album) }),
        None => None,
    }
}

/// A copy of what was read of a file.
pub fn copy_probe(p: &Option<FileInfo>) -> (r: Option<FileInfo>)
    ensures
        r == *p,
{
    match p {
        Some(i) => Some(FileInfo {
            duration_secs: i.duration_secs,
            bitrate: i.bitrate,
            primary_tag: copy_tag(&i.primary_tag),
            first_tag: copy_tag(&i.first_tag),
        }),
        None => None,
    }
}

impl Track {
    /// Builds the track of the file at `path` (whose last component is
    /// `file_name`) from what could be read of it, `None` when it could not be read.
    pub fn from_path(path: String, file_name: String, probe: Option<FileInfo>) -> (t: Track)
        ensures
            track_from(t, path@, file_name@, probe),
    {
        let mut title = String::new();
        let mut artist = String::new();
        let mut album = String::from_str(UNKNOWN_ALBUM);
        let mut duration_secs: u64 = 0;
        let mut bitrate: u32 = 0;
        if let Some(info) = &probe {
            duration_secs = info.duration_secs;
            bitrate = match info.bitrate {
                Some(b) => b,
                None => 0,
            };
            let tag = match &info.primary_tag {
                Some(t) => Some(t),
                None => match &info.first_tag {
                    Some(t) => Some(t),
                    None => None,
                },
            };
            if let Some(t) = tag {
                title = field_string(&t.title, "");
                artist = field_string(&t.artist, "");
                album = field_string(&t.album, UNKNOWN_ALBUM);
            }
        }
        proof {
            reveal_strlit("");
        }
        let display_name = if title.as_str().is_empty() {
            file_name
        } else if artist.as_str().is_empty() {
            title
        } else {
            let mut name = artist;
            name.append(" - ");
            name.append(title.as_str());
            name
        };
        Track { path, display_name, album, duration_secs, bitrate }
    }
}

/// Whether a file extension is one the library plays.
pub open spec fn is_audio_extension(ext: Seq<char>) -> bool {
    ext == "mp3"@ || ext == "flac"@
}

/// Whether a file with extension `ext` belongs in the library ("mp3" or "flac").
pub fn is_audio_file(ext: &str) -> (b: bool)
    ensures
        b == is_audio_extension(ext@),
        b <==> (ext@ == "mp3"@ || ext@ == "flac"@),
{
    let e = String::from_str(ext);
    let mp3 = String::from_str("mp3");
    let flac = String::from_str("flac");
    e == mp3 || e == flac
}

/// An entry found while walking a directory: its path, its last component, and
/// its extension ("" when it has none).
pub struct WalkEntry {
    pub path: String,
    pub file_name: String,
    pub ext: String,
}

/// The entries that belong in the library, in walk order: those whose extension
/// is "mp3" or "flac" (exactly, case included).
pub open spec fn audio_entries(entries: Seq<WalkEntry>) -> Seq<WalkEntry>
    decreases entries.len(),
{
    if entries.len() == 0 {
        Seq::empty()
    } else if is_audio_extension(entries.last().ext@) {
        audio_entries(entries.drop_last()).push(entries.last())
    } else {
        audio_entries(entries.drop_last())
    }
}

/// The shown name of a track: the file name when the title is empty, the title
/// when only the artist is empty, and otherwise the artist, " - " and the title.
pub proof fn law_display_name(file_name: Seq<char>, title: Seq<char>, artist: Seq<char>)
    ensures
        title.len() == 0 ==> spec_display_name(file_name, title, artist) == file_name,
        title.len() > 0 && artist.len() == 0 ==> spec_display_name(file_name, title, artist) == title,
        title.len() > 0 && artist.len() > 0 ==> spec_display_name(file_name, title, artist) == artist + " - "@
            + title,
{
}

/// What is read from a file's tags: the primary tag when there is one, else
/// the first tag; a missing title or artist reads as empty and a missing
/// album (or no tag, or an unreadable file) as "Desconocido".
pub proof fn law_tag_fields(probe: Option<FileInfo>)
    ensures
        probe is None ==> spec_title(probe) == Seq::<char>::empty() && spec_artist(probe) == Seq::<char>::empty()
            && spec_album(probe) == "Desconocido"@,
        probe is Some && probe->0.primary_tag is Some ==> spec_title(probe) == field_or(
            probe->0.primary_tag->0.title,
            Seq::empty(),
        ) && spec_album(probe) == field_or(probe->0.primary_tag->0.album, "Desconocido"@),
        probe is Some && probe->0.primary_tag is None && probe->0.first_tag is Some ==> spec_title(probe)
            == field_or(probe->0.first_tag->0.title, Seq::empty()) && spec_artist(probe) == field_or(
            probe->0.first_tag->0.artist,
            Seq::empty(),
        ),
        probe is Some && probe->0.primary_tag is None && probe->0.first_tag is None ==> spec_title(probe)
            == Seq::<char>::empty() && spec_album(probe) == "Desconocido"@,
{
}

/// An extension belongs in the library exactly when it is "mp3" or "flac".
pub proof fn law_audio_extension(ext: Seq<char>)
    ensures
        is_audio_extension(ext) <==> (ext == "mp3"@ || ext == "flac"@),
{
}

/// The audio entries of a walk are exactly the walked entries whose extension
/// is "mp3" or "flac", and there are never more of them than entries.
pub proof fn law_audio_entries(entries: Seq<WalkEntry>)
    ensures
        audio_entries(entries).len() <= entries.len(),
        forall|e: WalkEntry| #[trigger] audio_entries(entries).contains(e) <==> (entries.contains(e) && (e.ext@
            == "mp3"@ || e.ext@ == "flac"@)),
    decreases entries.len(),
{
    if entries.len() > 0 {
        let rest = entries.drop_last();
        law_audio_entries(rest);
        assert forall|e: WalkEntry| #[trigger] audio_entries(entries).contains(e) <==> (entries.contains(e) && (
        e.ext@ == "mp3"@ || e.ext@ == "flac"@)) by {
            if entries.contains(e) {
                let k = choose|k: int| 0 <= k < entries.len() && entries[k] == e;
                if k < entries.len() - 1 {
                    assert(rest[k] == e);
                }
            }
            if rest.contains(e) {
                let k = choose|k: int| 0 <= k < rest.len() && rest[k] == e;
                assert(entries[k] == e);
            }
            if is_audio_extension(entries.last().ext@) {
                let a = audio_entries(rest);
                assert(audio_entries(entries) == a.push(entries.last()));
                if a.push(entries.last()).contains(e) {
                    let k = choose|k: int| 0 <= k < a.len() + 1 && a.push(entries.last())[k] == e;
                    if k < a.len() {
                        assert(a[k] == e);
                    }
                }
                if a.contains(e) {
                    let k = choose|k: int| 0 <= k < a.len() && a[k] == e;
                    assert(a.push(entries.last())[k] == e);
                }
                assert(a.push(entries.last())[a.len() as int] == entries.last());
            }
            assert(entries[entries.len() - 1] == entries.last());
        }
    }
}

/// The positions, in walk order, of the entries that belong in the library:
/// position `k` of the result is that of the `k`-th audio entry.
pub fn audio_file_indices(entries: &Vec<WalkEntry>) -> (r: Vec<usize>)
    ensures
        r@.len() == audio_entries(entries@).len(),
        forall|k: int| 0 <= k < r@.len() ==> #[trigger] r@[k] < entries@.len() && entries@[r@[k] as int]
            == audio_entries(entries@)[k],
        forall|k: int| 0 <= k < r@.len() ==> is_audio_extension(#[trigger] entries@[r@[k] as int].ext@),
        forall|k: int, l: int| 0 <= k < l < r@.len() ==> r@[k] < r@[l],
{
    let mut r: Vec<usize> = Vec::new();
    let mut i: usize = 0;
    while i < entries.len()
        invariant
            i <= entries@.len(),
            r@.len() == audio_entries(entries@.take(i as int)).len(),
            forall|k: int| 0 <= k < r@.len() ==> #[trigger] r@[k] < i && entries@[r@[k] as int]
                == audio_entries(entries@.take(i as int))[k],
            forall|k: int| 0 <= k < r@.len() ==> is_audio_extension(#[trigger] entries@[r@[k] as int].ext@),
            forall|k: int, l: int| 0 <= k < l < r@.len() ==> r@[k] < r@[l],
        decreases entries@.len() - i,
    {
        let ghost before = entries@.take(i as int);
        let ghost after = entries@.take(i + 1);
        assert(after.drop_last() =~= before);
        assert(after.last() == entries@[i as int]);
        if is_audio_file(entries[i].ext.as_str()) {
            r.push(i);
        }
        i = i + 1;
    }
    assert(entries@.take(i as int) =~= entries@);
    r
}

} // verus!
