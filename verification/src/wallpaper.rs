use crate::errors::Error;
use crate::text::{
    decimal_digits, file_name_of, has_extension, has_substring, is_separator,
    lemma_decimal_digits_form, lemma_file_name_suffix, path_has_extension, push_decimal,
    str_contains,
};
use crate::utf16::{decode_utf16_units, utf16_decode, utf16_valid};
use vstd::prelude::*;
use vstd::slice::slice_to_vec;
use vstd::string::*;

verus! {

/// Longest path the platform's wallpaper query reports: the legacy
/// 260-character path convention.
pub const MAX_WALLPAPER_PATH: usize = 260;

// ---------------------------------------------------------------------------
// Reading the current wallpaper path
// ---------------------------------------------------------------------------

/// The number of units before the first null, the whole length when no
/// null occurs.
pub open spec fn until_null(units: Seq<u16>) -> int
    decreases units.len(),
{
    if units.len() == 0 || units[0] == 0 {
        0
    } else {
        1 + until_null(units.skip(1))
    }
}

/// The units the platform's query reports as the path: everything before
/// the first null terminator, capped at the longest path the query
/// convention allows.
pub open spec fn reported_units(buf: Seq<u16>) -> Seq<u16> {
    buf.take(
        if until_null(buf) <= MAX_WALLPAPER_PATH as int {
            until_null(buf)
        } else {
            MAX_WALLPAPER_PATH as int
        },
    )
}

/// `until_null` counts exactly the leading run of nonzero units.
proof fn lemma_until_null_at(s: Seq<u16>, i: int)
    requires
        0 <= i <= s.len(),
        forall|j: int| 0 <= j < i ==> #[trigger] s[j] != 0,
        i == s.len() || s[i] == 0,
    ensures
        until_null(s) == i,
    decreases i,
{
    if i == 0 {
    } else {
        assert(s[0] != 0);
        lemma_until_null_at(s.skip(1), i - 1);
    }
}

/// `until_null` never counts below zero.
proof fn lemma_until_null_nonneg(s: Seq<u16>)
    ensures
        until_null(s) >= 0,
    decreases s.len(),
{
    if !(s.len() == 0 || s[0] == 0) {
        lemma_until_null_nonneg(s.skip(1));
    }
}

/// A leading run of nonzero units bounds `until_null` from below.
proof fn lemma_until_null_lower(s: Seq<u16>, i: int)
    requires
        0 <= i <= s.len(),
        forall|j: int| 0 <= j < i ==> #[trigger] s[j] != 0,
    ensures
        until_null(s) >= i,
    decreases i,
{
    lemma_until_null_nonneg(s);
    if i > 0 {
        assert(s[0] != 0);
        assert forall|j: int| 0 <= j < i - 1 implies #[trigger] s.skip(1)[j] != 0 by {
            assert(s.skip(1)[j] == s[j + 1]);
        }
        lemma_until_null_lower(s.skip(1), i - 1);
    }
}

/// The length of the path prefix the platform's answer holds: units up to
/// the first null, capped at the path-length convention.
pub fn reported_path_units(buf: &[u16]) -> (n: usize)
    ensures
        n <= buf@.len(),
        n as int == if until_null(buf@) <= MAX_WALLPAPER_PATH as int {
            until_null(buf@)
        } else {
            MAX_WALLPAPER_PATH as int
        },
{
    let len: usize = buf.len();
    let cap: usize = if len < MAX_WALLPAPER_PATH {
        len
    } else {
        MAX_WALLPAPER_PATH
    };
    let mut i: usize = 0;
    while i < cap
        invariant
            i <= cap,
            cap <= len,
            len == buf@.len(),
            cap == if len < MAX_WALLPAPER_PATH {
                len as int
            } else {
                MAX_WALLPAPER_PATH as int
            },
            forall|j: int| 0 <= j < i ==> #[trigger] buf@[j] != 0,
        decreases cap - i,
    {
        if buf[i] == 0 {
            proof {
                lemma_until_null_at(buf@, i as int);
            }
            return i;
        }
        i += 1;
    }
    proof {
        if cap == len {
            lemma_until_null_at(buf@, cap as int);
        } else {
            lemma_until_null_lower(buf@, cap as int);
        }
    }
    cap
}

/// Marker that names the platform's internal transcoded wallpaper cache
/// entry inside a reported path.
pub open spec fn transcoded_marker() -> Seq<char> {
    "TranscodedWallpaper"@
}

/// The reported path names the transcoded wallpaper cache entry and lacks
/// a file extension, so it cannot be consumed as an image file directly
/// and must be copied to a `.jpg` destination first.
pub open spec fn needs_cache_fallback(path: Seq<char>) -> bool {
    has_substring(path, transcoded_marker()) && !has_extension(path)
}

/// Whether the reported path requires the cache-fallback copy.
pub fn path_needs_cache_fallback(path: &str) -> (b: bool)
    ensures
        b == needs_cache_fallback(path@),
{
    if str_contains(path, "TranscodedWallpaper") {
        !path_has_extension(path)
    } else {
        false
    }
}

/// What the wallpaper reader concludes from a successful query.
pub enum WallpaperReport {
    /// The reported path, usable as it stands.
    Path(String),
    /// The reported path names the extension-less transcoded cache entry:
    /// the caller must copy it to a fresh `.jpg` destination and hand that
    /// back instead.
    TranscodedCache(String),
}

/// Interprets the platform's wallpaper query: its success flag and the
/// buffer it filled. The path is the buffer's null-terminated UTF-16
/// prefix; a query failure or an undecodable prefix is an error.
pub fn interpret_wallpaper_query(query_ok: bool, buf: &[u16]) -> (r: Result<
    WallpaperReport,
    Error,
>)
    ensures
        match r {
            Ok(rep) => query_ok && utf16_valid(reported_units(buf@)) && match rep {
                WallpaperReport::Path(p) => p@ == utf16_decode(reported_units(buf@))
                    && !needs_cache_fallback(p@),
                WallpaperReport::TranscodedCache(p) => p@ == utf16_decode(reported_units(buf@))
                    && needs_cache_fallback(p@),
            },
            Err(e) => if !query_ok {
                e == Error::PlatformQueryFailed
            } else {
                e == Error::InvalidEncoding && !utf16_valid(reported_units(buf@))
            },
        },
{
    if !query_ok {
        return Err(Error::PlatformQueryFailed);
    }
    let n: usize = reported_path_units(buf);
    let prefix: &[u16] = &buf[0..n];
    proof {
        assert(prefix@ =~= reported_units(buf@));
    }
    match decode_utf16_units(prefix) {
        Option::None => Err(Error::InvalidEncoding),
        Option::Some(p) => {
            if path_needs_cache_fallback(p.as_str()) {
                Ok(WallpaperReport::TranscodedCache(p))
            } else {
                Ok(WallpaperReport::Path(p))
            }
        },
    }
}

// ---------------------------------------------------------------------------
// The cache-fallback copy
// ---------------------------------------------------------------------------

/// Destination path for the cache-fallback copy: the roaming
/// application-data directory, a separator, the whole-second timestamp,
/// and a `.jpg` suffix.
pub open spec fn cache_destination_spec(appdata: Seq<char>, secs: int) -> Seq<char> {
    appdata + seq!['\\'] + decimal_digits(secs) + seq!['.', 'j', 'p', 'g']
}

/// The cache-copy destination always carries a file extension.
proof fn lemma_cache_destination_extension(appdata: Seq<char>, secs: int)
    requires
        secs >= 0,
    ensures
        has_extension(cache_destination_spec(appdata, secs)),
{
    let digits = decimal_digits(secs);
    lemma_decimal_digits_form(secs);
    let r = cache_destination_spec(appdata, secs);
    let k: int = appdata.len() as int + 1;
    assert(r[k - 1] == '\\');
    assert forall|j: int| k <= j < r.len() implies !is_separator(#[trigger] r[j]) by {
        if j < k + digits.len() {
            assert(r[j] == digits[j - k]);
            assert(0x30 <= r[j] as int <= 0x39);
        } else {
            let tail = seq!['.', 'j', 'p', 'g'];
            assert(r[j] == tail[j - (k + digits.len())]);
        }
    }
    lemma_file_name_suffix(r, k);
    let name = file_name_of(r);
    assert(name =~= r.subrange(k, r.len() as int));
    assert(name[0] == digits[0]);
    assert(0x30 <= name[0] as int <= 0x39);
    if name == seq!['.', '.'] {
        assert(name[0] == '.');
        assert(false);
    }
    let dot: int = digits.len() as int;
    assert(name[dot] == r[k + digits.len()]);
    assert(name[dot] == '.');
    assert(0 < dot < name.len());
}

/// Builds the cache-copy destination `<appdata>\<seconds>.jpg`.
pub fn cache_destination(appdata: &str, secs: u64) -> (r: String)
    ensures
        r@ == cache_destination_spec(appdata@, secs as int),
        has_extension(r@),
{
    let mut out: String = appdata.to_owned();
    out.append("\\");
    push_decimal(&mut out, secs);
    out.append(".jpg");
    proof {
        reveal_strlit("\\");
        reveal_strlit(".jpg");
        assert("\\"@ =~= seq!['\\']);
        assert(".jpg"@ =~= seq!['.', 'j', 'p', 'g']);
        assert(out@ =~= cache_destination_spec(appdata@, secs as int));
        lemma_cache_destination_extension(appdata@, secs as int);
    }
    out
}

/// Decides the cache-copy step once the environment lookup has answered:
/// without the roaming directory the read fails with
/// `EnvironmentLookupFailed`; with it the copy destination is fixed from
/// the directory and the whole-second timestamp.
pub fn resolve_cache_fallback(appdata: Option<&str>, secs: u64) -> (r: Result<String, Error>)
    ensures
        match r {
            Ok(dest) => match appdata {
                Option::Some(a) => dest@ == cache_destination_spec(a@, secs as int)
                    && has_extension(dest@),
                Option::None => false,
            },
            Err(e) => appdata is None && e == Error::EnvironmentLookupFailed,
        },
{
    match appdata {
        Option::Some(a) => Ok(cache_destination(a, secs)),
        Option::None => Err(Error::EnvironmentLookupFailed),
    }
}

/// Folds the copy's outcome into the reader's final result: the copied
/// `.jpg` destination on success, `CacheCopyFailed` otherwise.
pub fn finish_cache_copy(dest: String, copy_ok: bool) -> (r: Result<String, Error>)
    ensures
        match r {
            Ok(p) => copy_ok && p@ == dest@,
            Err(e) => !copy_ok && e == Error::CacheCopyFailed,
        },
{
    if copy_ok {
        Ok(dest)
    } else {
        Err(Error::CacheCopyFailed)
    }
}

// ---------------------------------------------------------------------------
// Setting the wallpaper
// ---------------------------------------------------------------------------

/// Builds the single-byte, null-terminated request buffer for the
/// platform's wallpaper update: the path's UTF-8 bytes followed by one
/// null terminator. A path holding an embedded null byte cannot form such
/// a buffer and is rejected with `InvalidPath`.
pub fn wallpaper_update_buffer(path: &str) -> (r: Result<Vec<u8>, Error>)
    ensures
        match r {
            Ok(buf) => !path.spec_bytes().contains(0u8) && buf@ == path.spec_bytes() + seq![0u8],
            Err(e) => e == Error::InvalidPath && path.spec_bytes().contains(0u8),
        },
{
    let bytes: &[u8] = path.as_bytes();
    let len: usize = bytes.len();
    let mut i: usize = 0;
    while i < len
        invariant
            i <= len,
            bytes@ == path.spec_bytes(),
            len == bytes@.len(),
            forall|j: int| 0 <= j < i ==> #[trigger] bytes@[j] != 0u8,
        decreases len - i,
    {
        if bytes[i] == 0 {
            proof {
                assert(path.spec_bytes()[i as int] == 0u8);
            }
            return Err(Error::InvalidPath);
        }
        i += 1;
    }
    proof {
        if path.spec_bytes().contains(0u8) {
            let j = choose|j: int|
                0 <= j < path.spec_bytes().len() && path.spec_bytes()[j] == 0u8;
            assert(false);
        }
    }
    let mut buf: Vec<u8> = slice_to_vec(bytes);
    buf.push(0);
    proof {
        assert(buf@ =~= path.spec_bytes() + seq![0u8]);
    }
    Ok(buf)
}

/// The phases of one wallpaper-update run, as the caller drives it.
pub enum SetWallpaperPhase {
    /// Hand this buffer to the platform's wallpaper update — persisting to
    /// the profile and refreshing the live session — and report its
    /// outcome.
    Updating(Vec<u8>),
    /// The run ended with this result.
    Done(Result<(), Error>),
}

/// One `set_wallpaper` run: the path is validated first; the platform
/// update is requested only for a validly encoded path, and its report
/// decides the result.
pub struct SetWallpaperRun {
    path: String,
    phase: SetWallpaperPhase,
    update_requested: bool,
}

impl SetWallpaperRun {
    /// The path this run was started on.
    pub closed spec fn path_spec(&self) -> Seq<char> {
        self.path@
    }

    /// The run's current phase.
    pub closed spec fn phase_spec(&self) -> SetWallpaperPhase {
        self.phase
    }

    /// Whether the platform update has been requested during this run.
    pub closed spec fn update_requested_spec(&self) -> bool {
        self.update_requested
    }

    /// The path's UTF-8 bytes, as the request buffer carries them.
    pub open spec fn path_bytes(&self) -> Seq<u8> {
        vstd::utf8::encode_utf8(self.path_spec())
    }

    /// The run's bookkeeping is consistent: the request buffer is the
    /// null-terminated path, the update is requested exactly when the path
    /// is valid, and each result matches how the run got there.
    pub closed spec fn wf(&self) -> bool {
        match self.phase {
            SetWallpaperPhase::Updating(buf) => !self.path_bytes().contains(0u8) && buf@
                == self.path_bytes() + seq![0u8] && self.update_requested,
            SetWallpaperPhase::Done(res) => match res {
                Ok(u) => self.update_requested && !self.path_bytes().contains(0u8),
                Err(e) => (e == Error::InvalidPath && !self.update_requested
                    && self.path_bytes().contains(0u8)) || (e == Error::PlatformUpdateFailed
                    && self.update_requested && !self.path_bytes().contains(0u8)),
            },
        }
    }

    /// Validates the path and builds the platform request. A path with an
    /// embedded null byte ends the run at once with `InvalidPath`, and the
    /// platform update is never requested for it.
    pub fn begin(path: &str) -> (s: SetWallpaperRun)
        ensures
            s.wf(),
            s.path_spec() == path@,
            s.update_requested_spec() == !path.spec_bytes().contains(0u8),
            path.spec_bytes().contains(0u8) ==> s.phase_spec() == SetWallpaperPhase::Done(
                Err(Error::InvalidPath),
            ),
            !path.spec_bytes().contains(0u8) ==> s.phase_spec() is Updating,
    {
        match wallpaper_update_buffer(path) {
            Ok(buf) => SetWallpaperRun {
                path: path.to_owned(),
                phase: SetWallpaperPhase::Updating(buf),
                update_requested: true,
            },
            Err(e) => SetWallpaperRun {
                path: path.to_owned(),
                phase: SetWallpaperPhase::Done(Err(e)),
                update_requested: false,
            },
        }
    }

    /// The run's current phase, naming the platform request to perform.
    pub fn phase(&self) -> (p: &SetWallpaperPhase)
        ensures
            *p == self.phase_spec(),
    {
        &self.phase
    }

    /// Reports the platform update's outcome and ends the run: success as
    /// is, failure as `PlatformUpdateFailed`.
    pub fn report_update(&mut self, ok: bool)
        requires
            old(self).wf(),
            old(self).phase_spec() is Updating,
        ensures
            final(self).wf(),
            final(self).path_spec() == old(self).path_spec(),
            final(self).update_requested_spec(),
            final(self).phase_spec() == SetWallpaperPhase::Done(
                if ok {
                    Result::<(), Error>::Ok(())
                } else {
                    Result::<(), Error>::Err(Error::PlatformUpdateFailed)
                },
            ),
    {
        if ok {
            self.phase = SetWallpaperPhase::Done(Ok(()));
        } else {
            self.phase = SetWallpaperPhase::Done(Err(Error::PlatformUpdateFailed));
        }
    }

    /// The run's result once it is done.
    pub fn outcome(&self) -> (r: Option<Result<(), Error>>)
        ensures
            match self.phase_spec() {
                SetWallpaperPhase::Done(res) => r == Some(res),
                SetWallpaperPhase::Updating(b) => r is None,
            },
    {
        match &self.phase {
            SetWallpaperPhase::Done(res) => Some(*res),
            SetWallpaperPhase::Updating(b) => None,
        }
    }
}

/// A run that ended with `InvalidPath` never requested the platform
/// update: the embedded-null check comes first and ends the run on its
/// own.
pub proof fn lemma_invalid_path_no_update(s: SetWallpaperRun)
    requires
        s.wf(),
        s.phase_spec() == SetWallpaperPhase::Done(Result::<(), Error>::Err(Error::InvalidPath)),
    ensures
        !s.update_requested_spec(),
{
}

/// The reader never hands back an extension-less path for a report that
/// names the transcoded cache entry: a path returned as it stands either
/// carries an extension or does not name the cache entry at all, and the
/// fallback destination always carries the `.jpg` extension.
pub proof fn lemma_no_bare_transcoded_path(p: Seq<char>)
    requires
        !needs_cache_fallback(p),
    ensures
        has_substring(p, transcoded_marker()) ==> has_extension(p),
{
}

} // verus!
