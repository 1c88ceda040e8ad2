//! Device-identity store.
//!
//! One identifier string names the installation. It lives in a single file
//! under the per-user configuration directory; it is created lazily on the
//! first read, trimmed of surrounding whitespace when read back, and
//! replaced wholesale on reset. The file itself is read and written by the
//! caller; every decision — what counts as a stored identifier, when to
//! regenerate, what a fresh identifier looks like — is made and proved
//! here.

use crate::decimal::{dec_spec, lemma_dec_all_digits, lemma_dec_len_10000, push_decimal};
use crate::errors::AppResult;
use crate::text::{
    is_digit, is_lower_alnum, is_space, lemma_trim_end_pad, lemma_trim_noop, trim, trim_spec,
};
use crate::utils::{chars_to_string, rand_string};
use vstd::prelude::*;

verus! {

/// Provider for device identification.
///
/// Abstracts how device IDs are generated and stored; the file-backed
/// caller implements it over [`FileDeviceProvider`]'s decisions.
pub trait DeviceProvider: Send + Sync {
    /// Get the unique device identifier, creating one if it doesn't exist.
    fn get_device_id(&self) -> AppResult<String>;

    /// Reset the device ID (for testing or user request).
    fn reset_device_id(&self) -> AppResult<String>;
}

/// The fixed prefix of every device identifier.
pub open spec fn device_prefix() -> Seq<char> {
    seq!['d', 'e', 'v', 'i', 'c', 'e', '_']
}

/// A well-formed device identifier: `device_`, one or more decimal digits,
/// `_`, and an 8-character lowercase-alphanumeric suffix.
pub open spec fn is_valid_device_id(s: Seq<char>) -> bool {
    &&& s.len() >= 17
    &&& s.subrange(0, 7) == device_prefix()
    &&& forall|i: int| 7 <= i < s.len() - 9 ==> is_digit(#[trigger] s[i])
    &&& s[s.len() - 9] == '_'
    &&& forall|i: int| s.len() - 8 <= i < s.len() ==> is_lower_alnum(#[trigger] s[i])
}

/// The identifier the file holds, if any: its content trimmed of
/// whitespace, unless nothing but whitespace is left.
pub open spec fn stored_id_of(content: Seq<char>) -> Option<Seq<char>> {
    if trim_spec(content).len() > 0 {
        Some(trim_spec(content))
    } else {
        None
    }
}

/// What the file read handed back: `None` when the file was absent or
/// unreadable.
pub open spec fn content_view(content: Option<&str>) -> Option<Seq<char>> {
    match content {
        Some(c) => Some(c@),
        None => None,
    }
}

/// Whether a get regenerates the identifier and rewrites the file.
pub open spec fn get_rewrites(content: Option<Seq<char>>) -> bool {
    match content {
        Some(c) => stored_id_of(c) is None,
        None => true,
    }
}

/// The identifier a get returns, given the file content and the
/// identifier it would freshly generate.
pub open spec fn get_id_of(content: Option<Seq<char>>, fresh: Seq<char>) -> Seq<char> {
    match content {
        Some(c) => match stored_id_of(c) {
            Some(t) => t,
            None => fresh,
        },
        None => fresh,
    }
}

/// The file content after a get: untouched when it held an identifier,
/// else the freshly generated one.
pub open spec fn file_after_get(content: Option<Seq<char>>, fresh: Seq<char>) -> Seq<char> {
    match content {
        Some(c) => match stored_id_of(c) {
            Some(t) => c,
            None => fresh,
        },
        None => fresh,
    }
}

/// Relies on `dirs::config_dir`: the per-user configuration directory as
/// the environment reports it, converted to a string; `None` when the OS
/// names none or the path is not Unicode. The environment decides the
/// value, so nothing is promised of it.
#[verifier::external_body]
fn os_config_dir() -> Option<String> {
    dirs::config_dir().and_then(|p| p.into_os_string().into_string().ok())
}

/// Relies on `std::time::SystemTime::now`: milliseconds from the Unix
/// epoch to the current wall-clock time, `None` when the clock stands
/// before the epoch. The clock decides the value, so nothing is promised
/// of it.
#[verifier::external_body]
fn clock_millis() -> Option<u64> {
    std::time::SystemTime::now().duration_since(std::time::UNIX_EPOCH).ok().map(
        |d| d.as_millis() as u64,
    )
}

/// Device provider that stores the ID in a local file.
pub struct FileDeviceProvider {
    config_dir: String,
}

impl FileDeviceProvider {
    /// The configuration directory this provider is rooted at.
    pub closed spec fn dir(&self) -> Seq<char> {
        self.config_dir@
    }

    /// Root a provider at the given base directory — what the OS names
    /// as the per-user configuration directory, or `None` when it names
    /// none (or the path is not Unicode), in which case the current
    /// directory stands in.
    pub fn rooted_at(base: Option<String>) -> (p: Self)
        ensures
            base matches Some(d) ==> p.dir() == d@ + "/flight-tracker"@,
            base is None ==> p.dir() == "./flight-tracker"@,
    {
        match base {
            Some(d) => {
                let ghost dv = d@;
                let dir = d.concat("/flight-tracker");
                proof {
                    assert(dir@ == dv + "/flight-tracker"@);
                }
                FileDeviceProvider { config_dir: dir }
            },
            None => FileDeviceProvider { config_dir: String::from_str("./flight-tracker") },
        }
    }

    /// Create a new file-based device provider, rooted at the per-user
    /// configuration directory (or the current directory when the OS
    /// names none).
    pub fn new() -> (p: Self)
        ensures
            exists|base: Seq<char>| p.dir() == base + "/flight-tracker"@,
    {
        let base = os_config_dir();
        let ghost gb = base;
        let p = Self::rooted_at(base);
        proof {
            match gb {
                Some(d) => {
                    assert(p.dir() == d@ + "/flight-tracker"@);
                },
                None => {
                    reveal_strlit(".");
                    reveal_strlit("/flight-tracker");
                    reveal_strlit("./flight-tracker");
                    assert("."@ + "/flight-tracker"@ =~= "./flight-tracker"@);
                    assert(p.dir() == "."@ + "/flight-tracker"@);
                },
            }
        }
        p
    }

    /// The directory that holds the identifier file; the caller creates it
    /// on demand before reading or writing.
    pub fn config_dir_path(&self) -> (p: String)
        ensures
            p@ == self.dir(),
    {
        self.config_dir.clone()
    }

    /// Get the path to the device ID file.
    pub fn device_file_path(&self) -> (p: String)
        ensures
            p@ == self.dir() + "/device_id"@,
    {
        self.config_dir.clone().concat("/device_id")
    }

    /// Build the identifier for a millisecond timestamp and a random
    /// suffix: `device_<millis>_<suffix>`.
    pub fn compose_device_id(millis: u64, suffix: &str) -> (id: String)
        requires
            suffix@.len() == 8,
            forall|i: int| 0 <= i < suffix@.len() ==> is_lower_alnum(#[trigger] suffix@[i]),
        ensures
            id@ == device_prefix() + dec_spec(millis as nat) + seq!['_'] + suffix@,
            is_valid_device_id(id@),
            id@.len() == 16 + dec_spec(millis as nat).len(),
            millis >= 10000 ==> id@.len() > 20,
    {
        let mut v: Vec<char> = Vec::new();
        v.push('d');
        v.push('e');
        v.push('v');
        v.push('i');
        v.push('c');
        v.push('e');
        v.push('_');
        proof {
            assert(v@ =~= device_prefix());
        }
        push_decimal(millis, &mut v);
        v.push('_');
        let n = suffix.unicode_len();
        let mut k: usize = 0;
        proof {
            assert(v@ =~= device_prefix() + dec_spec(millis as nat) + seq!['_'] + suffix@.take(
                0,
            ));
        }
        while k < n
            invariant
                k <= n,
                n == suffix@.len(),
                v@ == device_prefix() + dec_spec(millis as nat) + seq!['_'] + suffix@.take(
                    k as int,
                ),
            decreases n - k,
        {
            let c = suffix.get_char(k);
            v.push(c);
            proof {
                assert(v@ =~= device_prefix() + dec_spec(millis as nat) + seq!['_']
                    + suffix@.take(k as int + 1));
            }
            k = k + 1;
        }
        proof {
            assert(suffix@.take(n as int) =~= suffix@);
            let s = v@;
            let d = dec_spec(millis as nat).len() as int;
            lemma_dec_all_digits(millis as nat);
            assert(s.len() == 16 + d);
            assert(s.subrange(0, 7) =~= device_prefix());
            assert forall|i: int| 7 <= i < s.len() - 9 implies is_digit(#[trigger] s[i]) by {
                assert(s[i] == dec_spec(millis as nat)[i - 7]);
            }
            assert(s[s.len() - 9] == '_');
            assert forall|i: int| s.len() - 8 <= i < s.len() implies is_lower_alnum(
                #[trigger] s[i],
            ) by {
                assert(s[i] == suffix@[i - (s.len() - 8)]);
            }
            if millis >= 10000 {
                lemma_dec_len_10000(millis as nat);
            }
        }
        chars_to_string(&v)
    }

    /// Generate a new unique device ID: the current wall-clock
    /// milliseconds (zero when the clock stands before the epoch) and a
    /// fresh 8-character random suffix.
    pub fn generate_device_id(&self) -> (id: String)
        ensures
            is_valid_device_id(id@),
    {
        let millis = match clock_millis() {
            Some(m) => m,
            None => 0,
        };
        let suffix = rand_string(8);
        Self::compose_device_id(millis, suffix.as_str())
    }

    /// Decide a get from what the file read handed back: the stored
    /// identifier when the trimmed content is non-empty, else a freshly
    /// generated one, flagged so the caller writes it to the file.
    pub fn get_device_id_with(&self, content: Option<&str>) -> (r: (String, bool))
        ensures
            r.1 == get_rewrites(content_view(content)),
            r.0@ == get_id_of(content_view(content), r.0@),
            r.1 ==> is_valid_device_id(r.0@),
    {
        match content {
            Some(c) => {
                let t = trim(c);
                if !t.as_str().is_empty() {
                    (t, false)
                } else {
                    (self.generate_device_id(), true)
                }
            },
            None => (self.generate_device_id(), true),
        }
    }
}

impl Default for FileDeviceProvider {
    fn default() -> (p: Self)
        ensures
            exists|base: Seq<char>| p.dir() == base + "/flight-tracker"@,
    {
        FileDeviceProvider::new()
    }
}

/// A well-formed identifier carries no whitespace at its ends, so a file
/// holding exactly a freshly written identifier reads back as that
/// identifier.
pub proof fn lemma_valid_id_reads_back(id: Seq<char>)
    requires
        is_valid_device_id(id),
    ensures
        stored_id_of(id) == Some(id),
{
    assert(id[0] == id.subrange(0, 7)[0]);
    assert(id[0] == 'd');
    assert(is_lower_alnum(id[id.len() - 1]));
    lemma_trim_noop(id);
}

/// Idempotence: two gets with no reset in between return the same
/// identifier — whatever the first call returned, the file it leaves
/// behind reads back as exactly that identifier.
pub proof fn lemma_get_device_id_idempotent(
    content: Option<Seq<char>>,
    fresh1: Seq<char>,
    fresh2: Seq<char>,
)
    requires
        is_valid_device_id(fresh1),
    ensures
        get_id_of(Some(file_after_get(content, fresh1)), fresh2) == get_id_of(content, fresh1),
{
    if get_rewrites(content) {
        lemma_valid_id_reads_back(fresh1);
    }
}

/// Reset takes effect: after a reset overwrites the file with a fresh
/// identifier, the next get returns exactly that identifier.
pub proof fn lemma_reset_then_get(fresh: Seq<char>, fresh2: Seq<char>)
    requires
        is_valid_device_id(fresh),
    ensures
        get_id_of(Some(fresh), fresh2) == fresh,
{
    lemma_valid_id_reads_back(fresh);
}

/// Persistence across restarts: a provider reading the file a previous
/// get left behind returns the same identifier and does not regenerate
/// it. The providers hold no state, so this holds across instances.
pub proof fn lemma_get_device_id_persistent(
    content: Option<Seq<char>>,
    fresh1: Seq<char>,
    fresh2: Seq<char>,
)
    requires
        is_valid_device_id(fresh1),
    ensures
        get_id_of(Some(file_after_get(content, fresh1)), fresh2) == get_id_of(content, fresh1),
        !get_rewrites(Some(file_after_get(content, fresh1))),
{
    if get_rewrites(content) {
        lemma_valid_id_reads_back(fresh1);
    }
}

/// Reset changes the stored value, within the random suffix's collision
/// tolerance: two generated identifiers coincide only when both the
/// wall-clock millisecond and the whole 8-character suffix repeat.
pub proof fn lemma_generated_ids_differ(m1: u64, s1: Seq<char>, m2: u64, s2: Seq<char>)
    requires
        s1.len() == 8,
        s2.len() == 8,
        m1 != m2 || s1 != s2,
    ensures
        device_prefix() + dec_spec(m1 as nat) + seq!['_'] + s1 != device_prefix() + dec_spec(
            m2 as nat,
        ) + seq!['_'] + s2,
{
    let i1 = device_prefix() + dec_spec(m1 as nat) + seq!['_'] + s1;
    let i2 = device_prefix() + dec_spec(m2 as nat) + seq!['_'] + s2;
    if i1 == i2 {
        let d1 = dec_spec(m1 as nat).len() as int;
        let d2 = dec_spec(m2 as nat).len() as int;
        assert(i1.len() == 16 + d1);
        assert(i2.len() == 16 + d2);
        assert(d1 == d2);
        assert(i1.subrange(i1.len() - 8, i1.len() as int) =~= s1);
        assert(i2.subrange(i2.len() - 8, i2.len() as int) =~= s2);
        assert(s1 == s2);
        assert(i1.subrange(7, 7 + d1) =~= dec_spec(m1 as nat));
        assert(i2.subrange(7, 7 + d2) =~= dec_spec(m2 as nat));
        crate::decimal::lemma_dec_injective(m1 as nat, m2 as nat);
        assert(false);
    }
}

/// Whitespace tolerance: an identifier stored with trailing whitespace
/// reads back as the identifier itself.
pub proof fn lemma_trailing_whitespace_tolerated(id: Seq<char>, pad: Seq<char>)
    requires
        is_valid_device_id(id),
        forall|i: int| 0 <= i < pad.len() ==> is_space(#[trigger] pad[i]),
    ensures
        stored_id_of(id + pad) == Some(id),
{
    assert(id[0] == id.subrange(0, 7)[0]);
    assert(id[0] == 'd');
    assert((id + pad)[0] == id[0]);
    assert(trim_spec(id + pad) == crate::text::trim_end_spec(id + pad));
    lemma_trim_end_pad(id, pad);
    assert(is_lower_alnum(id[id.len() - 1]));
    assert(crate::text::trim_end_spec(id) == id);
}

} // verus!
