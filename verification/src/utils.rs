//! Transfer-time estimation and the user's folders.
use std::collections::VecDeque;
use std::path::Path;
use std::time::{Duration, Instant};
use vstd::prelude::*;

verus! {

/// How many one-second samples of transfer speed the estimator keeps.
pub const STEPS_TRACK_COUNT: usize = 5;

#[verifier::external_type_specification]
#[verifier::external_body]
pub struct ExInstant(Instant);

/// Reads the monotonic clock (`std::time::Instant::now`).
/// Nothing is promised of the reading: it depends on the time.
#[verifier::external_body]
fn instant_now() -> (r: Instant) {
    Instant::now()
}

/// `Instant::duration_since`: the time from `earlier` to `later`, which std
/// documents to saturate at zero when `earlier` is the later one. The value
/// depends on the clock readings; nothing is stated of it.
#[verifier::external_body]
fn duration_since(later: &Instant, earlier: &Instant) -> (r: Duration) {
    later.duration_since(*earlier)
}

/// `Duration::as_secs`: the whole seconds of a duration. A `Duration` is
/// opaque here, so nothing is stated of the number.
#[verifier::external_body]
fn duration_whole_secs(d: &Duration) -> (r: u64) {
    d.as_secs()
}

/// Whether `secs` is what the clock gave as the whole seconds from `earlier`
/// to `later`: `duration_since` was asked for that span and `as_secs` for
/// that duration, and this came back.
pub closed spec fn whole_secs_read(later: Instant, earlier: Instant, secs: u64) -> bool {
    exists|d: Duration|
        #[trigger] call_ensures(duration_since, (&later, &earlier), d) && call_ensures(
            duration_whole_secs,
            (&d,),
            secs,
        )
}

proof fn lemma_whole_secs_read(later: Instant, earlier: Instant, d: Duration, secs: u64)
    requires
        call_ensures(duration_since, (&later, &earlier), d),
        call_ensures(duration_whole_secs, (&d,), secs),
    ensures
        whole_secs_read(later, earlier, secs),
{
}

/// What `Path::join` gives for these paths, as text.
pub uninterp spec fn path_join_result(base: Seq<char>, path: Seq<char>) -> Seq<char>;

/// What `Path::starts_with` says of these paths.
pub uninterp spec fn path_starts_with_result(path: Seq<char>, base: Seq<char>) -> bool;

/// What `Path::strip_prefix` gives for these paths when it succeeds, as text.
pub uninterp spec fn path_strip_prefix_result(path: Seq<char>, base: Seq<char>) -> Seq<char>;

/// What `Path::file_name` gives for this path, as text.
pub uninterp spec fn path_file_name_result(path: Seq<char>) -> Option<Seq<char>>;

/// `Path::join`: `base` with `path` added as std does it (a separator
/// between them, an absolute `path` replacing `base`). The result is named,
/// a function of the two paths. Both come in as UTF-8 text, so the lossy
/// conversion back to text changes nothing.
#[verifier::external_body]
pub(crate) fn path_join(base: &str, path: &str) -> (r: String)
    ensures
        r@ == path_join_result(base@, path@),
{
    Path::new(base).join(path).to_string_lossy().into_owned()
}

/// `Path::starts_with`: whether `base` is a leading run of whole components
/// of `path`. The answer is named, a function of the two paths.
#[verifier::external_body]
pub(crate) fn path_starts_with(path: &str, base: &str) -> (r: bool)
    ensures
        r == path_starts_with_result(path@, base@),
{
    Path::new(path).starts_with(base)
}

/// `Path::strip_prefix`: `path` without the leading components `base`.
/// std documents that it fails exactly when `starts_with` says no; the
/// rest of the path is named, a function of the two paths.
#[verifier::external_body]
pub(crate) fn path_strip_prefix(path: &str, base: &str) -> (r: Option<String>)
    ensures
        r is Some == path_starts_with_result(path@, base@),
        r matches Some(s) ==> s@ == path_strip_prefix_result(path@, base@),
{
    Path::new(path).strip_prefix(base).ok().map(|p| p.to_string_lossy().into_owned())
}

/// `Path::file_name`: the last component of `path`, if it is a name. The
/// result is named, a function of the path.
#[verifier::external_body]
pub(crate) fn path_file_name(path: &str) -> (r: Option<String>)
    ensures
        match r {
            Some(n) => path_file_name_result(path@) == Some(n@),
            None => path_file_name_result(path@) is None,
        },
{
    Path::new(path).file_name().map(|n| n.to_string_lossy().into_owned())
}

/// `dirs::home_dir`: the user's home folder, read from the environment; a
/// path that is not UTF-8 is converted lossily. Nothing is stated of it: it
/// depends on the environment.
#[verifier::external_body]
fn home_dir() -> (r: Option<String>) {
    dirs::home_dir().map(|p| p.to_string_lossy().into_owned())
}

/// `dirs::download_dir`: the user's download folder (`XDG_DOWNLOAD_DIR`),
/// read from the environment; a path that is not UTF-8 is converted
/// lossily. Nothing is stated of it: it depends on the environment.
#[verifier::external_body]
fn download_dir() -> (r: Option<String>) {
    dirs::download_dir().map(|p| p.to_string_lossy().into_owned())
}

/// A path as it is shown: under `home`, with `~` in place of the home
/// folder.
pub open spec fn home_relative(path: Seq<char>, home: Option<String>) -> Seq<char> {
    match home {
        Some(h) => if path_starts_with_result(path, h@) {
            path_join_result("~"@, path_strip_prefix_result(path, h@))
        } else {
            path
        },
        None => path,
    }
}

/// A path as it is shown, given the home folder.
pub fn strip_home_prefix(path: &str, home: Option<String>) -> (r: String)
    ensures
        r@ == home_relative(path@, home),
{
    match home {
        Some(h) => {
            if path_starts_with(path, h.as_str()) {
                match path_strip_prefix(path, h.as_str()) {
                    Some(rest) => path_join("~", rest.as_str()),
                    None => path.to_owned(),
                }
            } else {
                path.to_owned()
            }
        },
        None => path.to_owned(),
    }
}

/// A path as it is shown: under the user's home folder, with `~` in its
/// place.
pub fn strip_user_home_prefix(path: &str) -> (r: String)
    ensures
        exists|home: Option<String>| r@ == home_relative(path@, home),
{
    let home = home_dir();
    strip_home_prefix(path, home)
}

/// Why no download folder could be found.
#[derive(Debug, Clone, Copy, PartialEq, Eq, Structural)]
pub enum DownloadDirError {
    /// The user's home folder is unknown.
    HomeNotFound,
}

/// The download folder: the one the user's settings name, else `Downloads`
/// in the home folder; an error without a home folder.
pub open spec fn download_folder_of(home: Option<String>, xdg_download: Option<String>) -> Result<Seq<char>, DownloadDirError> {
    match home {
        None => Err(DownloadDirError::HomeNotFound),
        Some(h) => match xdg_download {
            Some(d) => Ok(d@),
            None => Ok(path_join_result(h@, "Downloads"@)),
        },
    }
}

/// The download folder, given the home folder and the one the settings name.
pub fn download_dir_with_fallback(home: Option<String>, xdg_download: Option<String>) -> (r: Result<String, DownloadDirError>)
    ensures
        match (r, download_folder_of(home, xdg_download)) {
            (Ok(p), Ok(q)) => p@ == q,
            (Err(e), Err(f)) => e == f,
            _ => false,
        },
{
    match home {
        None => Err(DownloadDirError::HomeNotFound),
        Some(h) => match xdg_download {
            Some(d) => Ok(d),
            None => Ok(path_join(h.as_str(), "Downloads")),
        },
    }
}

/// The download folder: the user's `XDG_DOWNLOAD_DIR`, else `Downloads` in
/// the home folder; an error without a home folder.
pub fn get_xdg_download_with_fallback() -> (r: Result<String, DownloadDirError>)
    ensures
        exists|home: Option<String>, xdg: Option<String>|
            match (r, #[trigger] download_folder_of(home, xdg)) {
                (Ok(p), Ok(q)) => p@ == q,
                (Err(e), Err(f)) => e == f,
                _ => false,
            },
{
    let home = home_dir();
    match home {
        None => download_dir_with_fallback(None, None),
        Some(h) => {
            let xdg = download_dir();
            download_dir_with_fallback(Some(h), xdg)
        },
    }
}

/// What an estimator holds, as plain values.
pub struct EtaView {
    pub total_len: usize,
    pub total_transferred: usize,
    pub transferred_this_sec: usize,
    /// Bytes transferred in each of the last few whole seconds, newest first.
    pub window: Seq<usize>,
    pub last_sec: Option<Instant>,
    pub seconds_elapsed: usize,
}

/// Estimates the time left of a transfer from the bytes moved in the last
/// few seconds.
#[derive(Debug)]
pub struct DataTransferEta {
    pub total_len: usize,
    total_transferred: usize,
    transferred_this_sec: usize,
    transferred_last_few_secs: VecDeque<usize>,
    last_sec: Option<Instant>,
    seconds_elapsed: usize,
}

impl View for DataTransferEta {
    type V = EtaView;

    closed spec fn view(&self) -> EtaView {
        EtaView {
            total_len: self.total_len,
            total_transferred: self.total_transferred,
            transferred_this_sec: self.transferred_this_sec,
            window: self.transferred_last_few_secs@,
            last_sec: self.last_sec,
            seconds_elapsed: self.seconds_elapsed,
        }
    }
}

/// The sum of a sequence of byte counts.
pub open spec fn sum_of(s: Seq<usize>) -> nat
    decreases s.len(),
{
    if s.len() == 0 {
        0
    } else {
        (sum_of(s.drop_last()) + s.last()) as nat
    }
}

/// The window after a whole second has passed: the bytes of that second go
/// in front, and the oldest sample leaves when the window is full.
pub open spec fn rolled_window(window: Seq<usize>, this_sec: usize) -> Seq<usize> {
    if window.len() == STEPS_TRACK_COUNT {
        seq![this_sec] + window.drop_last()
    } else {
        seq![this_sec] + window
    }
}

/// The smaller of two counts.
pub open spec fn min_count(a: int, b: int) -> int {
    if a < b {
        a
    } else {
        b
    }
}

impl EtaView {
    /// The estimator's invariant: one sample for each whole second marked,
    /// up to `STEPS_TRACK_COUNT`; no second is marked before the clock is;
    /// and the bytes it still counts were all transferred, every one of them
    /// as long as no sample has been dropped.
    pub open spec fn wf(self) -> bool {
        &&& self.window.len() == min_count(self.seconds_elapsed as int, STEPS_TRACK_COUNT as int)
        &&& self.last_sec is None ==> self.seconds_elapsed == 0
        &&& self.transferred_this_sec + sum_of(self.window) <= self.total_transferred
        &&& self.seconds_elapsed <= STEPS_TRACK_COUNT ==> self.transferred_this_sec + sum_of(
            self.window,
        ) == self.total_transferred
    }

    /// A fresh estimator for `total_len` bytes.
    pub open spec fn fresh(self, total_len: usize) -> bool {
        &&& self.total_len == total_len
        &&& self.total_transferred == 0
        &&& self.transferred_this_sec == 0
        &&& self.window == Seq::<usize>::empty()
        &&& self.last_sec is None
        &&& self.seconds_elapsed == 0
    }
}


/// The estimator after `step_at(total_transferred, now, whole_secs)`.
pub open spec fn stepped(
    v: EtaView,
    total_transferred: usize,
    now: Instant,
    whole_secs_since_mark: u64,
) -> EtaView {
    let this_sec = (v.transferred_this_sec + (total_transferred - v.total_transferred)) as usize;
    match v.last_sec {
        None => EtaView {
            total_transferred,
            transferred_this_sec: this_sec,
            last_sec: Some(now),
            ..v
        },
        Some(_) => if whole_secs_since_mark >= 1 {
            EtaView {
                total_transferred,
                transferred_this_sec: 0,
                window: rolled_window(v.window, this_sec),
                last_sec: Some(now),
                seconds_elapsed: (v.seconds_elapsed + 1) as usize,
                ..v
            }
        } else {
            EtaView { total_transferred, transferred_this_sec: this_sec, ..v }
        },
    }
}

/// What may be asked of `step_with`: the byte count does not go back, and
/// the seconds counter has room for one more.
pub open spec fn can_step(v: EtaView, total_transferred: usize) -> bool {
    &&& v.total_transferred <= total_transferred
    &&& v.seconds_elapsed < usize::MAX
}

proof fn lemma_sum_of_prefix(s: Seq<usize>, i: int)
    requires
        0 <= i < s.len(),
    ensures
        sum_of(s.take(i + 1)) == sum_of(s.take(i)) + s[i],
{
    assert(s.take(i + 1).drop_last() =~= s.take(i));
}

proof fn lemma_sum_of_push_front(x: usize, s: Seq<usize>)
    ensures
        sum_of(seq![x] + s) == x + sum_of(s),
    decreases s.len(),
{
    if s.len() == 0 {
        assert((seq![x] + s).drop_last() =~= Seq::<usize>::empty());
        assert((seq![x] + s).last() == x);
        assert(sum_of(Seq::<usize>::empty()) == 0);
    } else {
        assert((seq![x] + s).drop_last() =~= seq![x] + s.drop_last());
        assert((seq![x] + s).last() == s.last());
        lemma_sum_of_push_front(x, s.drop_last());
    }
}

proof fn lemma_rolled_window_sum(window: Seq<usize>, this_sec: usize)
    ensures
        sum_of(rolled_window(window, this_sec)) <= this_sec + sum_of(window),
        window.len() != STEPS_TRACK_COUNT ==> sum_of(rolled_window(window, this_sec)) == this_sec
            + sum_of(window),
        rolled_window(window, this_sec).len() == if window.len() == STEPS_TRACK_COUNT {
            window.len() as int
        } else {
            window.len() + 1int
        },
        window.len() <= STEPS_TRACK_COUNT ==> rolled_window(window, this_sec).len()
            <= STEPS_TRACK_COUNT,
{
    if window.len() == STEPS_TRACK_COUNT {
        lemma_sum_of_push_front(this_sec, window.drop_last());
    } else {
        lemma_sum_of_push_front(this_sec, window);
    }
}

impl DataTransferEta {
    /// A fresh estimator for a transfer of `len` bytes.
    pub fn new(len: usize) -> (r: Self)
        ensures
            r@.fresh(len),
            r@.wf(),
    {
        DataTransferEta {
            total_len: len,
            total_transferred: 0,
            transferred_this_sec: 0,
            transferred_last_few_secs: VecDeque::with_capacity(STEPS_TRACK_COUNT),
            last_sec: None,
            seconds_elapsed: 0,
        }
    }

    /// The number of bytes the transfer is expected to move.
    pub fn total_len(&self) -> (r: usize)
        ensures
            r == self@.total_len,
    {
        self.total_len
    }

    /// Tests whether `step_with(total_transferred)` may be asked.
    pub fn can_step_to(&self, total_transferred: usize) -> (b: bool)
        ensures
            b == can_step(self@, total_transferred),
    {
        self.total_transferred <= total_transferred && self.seconds_elapsed < usize::MAX
    }

    /// Tests the estimator's invariant.
    pub fn is_wf(&self) -> (b: bool)
        ensures
            b == self@.wf(),
    {
        let n = self.transferred_last_few_secs.len();
        if n > STEPS_TRACK_COUNT {
            return false;
        }
        let ghost w = self.transferred_last_few_secs@;
        let mut sum: u128 = 0;
        let mut i: usize = 0;
        while i < n
            invariant
                n == w.len(),
                n <= STEPS_TRACK_COUNT,
                w == self.transferred_last_few_secs@,
                i <= n,
                sum == sum_of(w.take(i as int)),
                sum <= i * (usize::MAX as int),
            decreases n - i,
        {
            proof {
                lemma_sum_of_prefix(w, i as int);
            }
            sum = sum + self.transferred_last_few_secs[i] as u128;
            i = i + 1;
        }
        assert(w.take(n as int) =~= w);
        let expected_len: usize = if self.seconds_elapsed < STEPS_TRACK_COUNT {
            self.seconds_elapsed
        } else {
            STEPS_TRACK_COUNT
        };
        if n != expected_len {
            return false;
        }
        if self.last_sec.is_none() && self.seconds_elapsed != 0 {
            return false;
        }
        assert(sum <= 5 * (usize::MAX as int)) by (nonlinear_arith)
            requires
                sum <= n * (usize::MAX as int),
                n <= 5,
        ;
        let counted = (self.transferred_this_sec as u128) + sum;
        if self.seconds_elapsed <= STEPS_TRACK_COUNT {
            counted == self.total_transferred as u128
        } else {
            counted <= self.total_transferred as u128
        }
    }

    /// An equal estimator.
    pub fn duplicate(&self) -> (r: Self)
        ensures
            r@ == self@,
    {
        DataTransferEta {
            total_len: self.total_len,
            total_transferred: self.total_transferred,
            transferred_this_sec: self.transferred_this_sec,
            transferred_last_few_secs: self.transferred_last_few_secs.clone(),
            last_sec: self.last_sec,
            seconds_elapsed: self.seconds_elapsed,
        }
    }

    /// Records that `total_transferred` bytes have moved so far, given the
    /// clock reading `now` and the whole seconds since the last mark.
    pub fn step_at(&mut self, total_transferred: usize, now: Instant, whole_secs_since_mark: u64)
        requires
            old(self)@.wf(),
            can_step(old(self)@, total_transferred),
        ensures
            final(self)@ == stepped(old(self)@, total_transferred, now, whole_secs_since_mark),
            final(self)@.wf(),
    {
        let len = total_transferred - self.total_transferred;
        self.transferred_this_sec = self.transferred_this_sec + len;
        self.total_transferred = total_transferred;
        match self.last_sec {
            None => {
                self.last_sec = Some(now);
            },
            Some(_) => {
                if whole_secs_since_mark >= 1 {
                    proof {
                        lemma_rolled_window_sum(
                            self.transferred_last_few_secs@,
                            self.transferred_this_sec,
                        );
                    }
                    self.seconds_elapsed = self.seconds_elapsed + 1;
                    self.last_sec = Some(now);
                    if self.transferred_last_few_secs.len() == STEPS_TRACK_COUNT {
                        self.transferred_last_few_secs.pop_back();
                    }
                    self.transferred_last_few_secs.push_front(self.transferred_this_sec);
                    self.transferred_this_sec = 0;
                }
            },
        }
    }

    /// Records that `total_transferred` bytes have moved so far, reading the
    /// clock. A second's worth of bytes becomes a sample once at least one
    /// whole second has passed since the last mark.
    pub fn step_with(&mut self, total_transferred: usize)
        requires
            old(self)@.wf(),
            can_step(old(self)@, total_transferred),
        ensures
            exists|now: Instant, secs: u64|
                #![trigger stepped(old(self)@, total_transferred, now, secs)]
                final(self)@ == stepped(old(self)@, total_transferred, now, secs) && match old(
                    self,
                )@.last_sec {
                    Some(mark) => whole_secs_read(now, mark, secs),
                    None => secs == 0,
                },
            final(self)@.wf(),
    {
        let now = instant_now();
        let secs = match &self.last_sec {
            None => 0,
            Some(start) => {
                let elapsed = duration_since(&now, start);
                let secs = duration_whole_secs(&elapsed);
                proof {
                    lemma_whole_secs_read(now, *start, elapsed, secs);
                }
                secs
            },
        };
        self.step_at(total_transferred, now, secs);
    }

    /// The time left at the average speed of the samples.
    pub fn time_left(&self) -> (r: TimeLeft)
        requires
            self@.wf(),
        ensures
            r == time_left_of(self@),
    {
        let n = self.transferred_last_few_secs.len();
        let ghost w = self.transferred_last_few_secs@;
        let mut sum: u128 = 0;
        let mut i: usize = 0;
        while i < n
            invariant
                n == w.len(),
                n <= STEPS_TRACK_COUNT,
                w == self.transferred_last_few_secs@,
                i <= n,
                sum == sum_of(w.take(i as int)),
                sum <= i * (usize::MAX as int),
            decreases n - i,
        {
            proof {
                lemma_sum_of_prefix(w, i as int);
            }
            sum = sum + self.transferred_last_few_secs[i] as u128;
            i = i + 1;
        }
        assert(w.take(n as int) =~= w);
        let total_len = self.total_len;
        let done = self.total_transferred;
        if n == 0 || sum == 0 {
            if total_len != done {
                TimeLeft::Unknown
            } else {
                breakdown_secs(0)
            }
        } else if total_len <= done {
            breakdown_secs(0)
        } else {
            let rem = (total_len - done) as u128;
            assert(rem * (n as u128) <= 5 * (usize::MAX as int)) by (nonlinear_arith)
                requires
                    rem <= usize::MAX,
                    n <= 5,
            ;
            let q = rem * (n as u128) / sum;
            let secs = if q > u32::MAX as u128 {
                u32::MAX
            } else {
                q as u32
            };
            breakdown_secs(secs)
        }
    }

    /// The time left as text: "Unknown", or the numbers right-aligned with
    /// the unit words that `ngettext` gives for the messages and counts of
    /// `unit_msgids`, as `estimate_text_with` builds it.
    pub fn get_estimate_string(&self) -> (r: String)
        requires
            self@.wf(),
        ensures
            time_left_of(self@) is Unknown ==> r@ == "Unknown"@,
            exists|first: Seq<char>, second: Seq<char>|
                plural_slot(unit_slots(time_left_of(self@)).0, first) && plural_slot(
                    unit_slots(time_left_of(self@)).1,
                    second,
                ) && r@ == time_left_text(time_left_of(self@), first, second),
    {
        let t = self.time_left();
        let translate = |u: UnitMsgid| -> (w: String)
            requires
                crate::i18n::is_msgid(u.msgid@),
                crate::i18n::is_msgid(u.plural@),
            ensures
                crate::i18n::is_plural_translation_of(u.msgid@, u.plural@, u.count, w),
            {
                let w = crate::i18n::ngettext(u.msgid, u.plural, u.count);
                proof {
                    crate::i18n::lemma_plural_translation(u.msgid, u.plural, u.count, w);
                }
                w
            };
        let r = estimate_text_with(t, &translate);
        proof {
            let (first, second) = choose|first: Seq<char>, second: Seq<char>|
                translated_slot(translate, unit_slots(t).0, first) && translated_slot(
                    translate,
                    unit_slots(t).1,
                    second,
                ) && r@ == time_left_text(t, first, second);
            lemma_plural_slot(translate, unit_slots(t).0, first);
            lemma_plural_slot(translate, unit_slots(t).1, second);
        }
        r
    }

    /// Starts over for a new transfer, keeping the expected length unless a
    /// new one is given.
    pub fn prepare_for_new_transfer(&mut self, total_len: Option<usize>)
        ensures
            final(self)@.fresh(
                match total_len {
                    Some(l) => l,
                    None => old(self)@.total_len,
                },
            ),
            final(self)@.wf(),
    {
        if let Some(total_len) = total_len {
            self.total_len = total_len;
        }
        self.total_transferred = 0;
        self.transferred_this_sec = 0;
        self.transferred_last_few_secs.clear();
        self.seconds_elapsed = 0;
        self.last_sec = None;
    }
}


/// A time left, broken down for display.
#[derive(Debug, Clone, Copy, PartialEq, Eq, Structural)]
pub enum TimeLeft {
    /// No estimate: nothing is moving while bytes remain.
    Unknown,
    /// More than 6000 seconds: whole hours, and the seconds past them.
    Hours { hours: u32, remainder: u32 },
    /// More than 100 seconds: whole minutes and the seconds past them.
    Minutes { minutes: u32, seconds: u32 },
    /// At most 100 seconds.
    Seconds { seconds: u32 },
}

/// The seconds left at the average speed of the samples, in whole seconds
/// capped at `u32::MAX`; `None` when nothing moves while bytes remain.
pub open spec fn estimate_secs(v: EtaView) -> Option<u32> {
    let n = v.window.len();
    let sum = sum_of(v.window);
    let remaining = v.total_len - v.total_transferred;
    if n == 0 || sum == 0 {
        if remaining != 0 {
            None
        } else {
            Some(0)
        }
    } else if remaining <= 0 {
        Some(0)
    } else {
        let q = remaining * n / (sum as int);
        if q > u32::MAX {
            Some(u32::MAX)
        } else {
            Some(q as u32)
        }
    }
}

/// The message, its plural form, and the count that the message catalog is
/// asked with for a unit word of a time left.
#[derive(Debug, Clone, Copy)]
pub struct UnitMsgid {
    pub msgid: &'static str,
    pub plural: &'static str,
    pub count: u32,
}

/// The unit words a time left needs, for its larger and its smaller number.
pub open spec fn unit_slots(t: TimeLeft) -> (Option<UnitMsgid>, Option<UnitMsgid>) {
    match t {
        TimeLeft::Unknown => (None, None),
        TimeLeft::Hours { hours, remainder } => (
            Some(UnitMsgid { msgid: "hour", plural: "hours", count: hours }),
            Some(UnitMsgid { msgid: "minute", plural: "minutes", count: remainder }),
        ),
        TimeLeft::Minutes { minutes, seconds } => (
            Some(UnitMsgid { msgid: "minute", plural: "minutes", count: minutes }),
            Some(UnitMsgid { msgid: "second", plural: "seconds", count: seconds }),
        ),
        TimeLeft::Seconds { seconds } => (
            Some(UnitMsgid { msgid: "second", plural: "seconds", count: seconds }),
            None,
        ),
    }
}

/// Whether a unit word can be handed to the translation catalog.
pub open spec fn is_unit_msgid(u: UnitMsgid) -> bool {
    crate::i18n::is_msgid(u.msgid@) && crate::i18n::is_msgid(u.plural@)
}

/// The unit words a time left needs: the larger unit with its number, then
/// the smaller one with its number.
pub fn unit_msgids(t: TimeLeft) -> (r: (Option<UnitMsgid>, Option<UnitMsgid>))
    ensures
        r == unit_slots(t),
        r.0 matches Some(u) ==> is_unit_msgid(u),
        r.1 matches Some(u) ==> is_unit_msgid(u),
{
    proof {
        reveal_strlit("hour");
        reveal_strlit("hours");
        reveal_strlit("minute");
        reveal_strlit("minutes");
        reveal_strlit("second");
        reveal_strlit("seconds");
    }
    match t {
        TimeLeft::Unknown => (None, None),
        TimeLeft::Hours { hours, remainder } => (
            Some(UnitMsgid { msgid: "hour", plural: "hours", count: hours }),
            Some(UnitMsgid { msgid: "minute", plural: "minutes", count: remainder }),
        ),
        TimeLeft::Minutes { minutes, seconds } => (
            Some(UnitMsgid { msgid: "minute", plural: "minutes", count: minutes }),
            Some(UnitMsgid { msgid: "second", plural: "seconds", count: seconds }),
        ),
        TimeLeft::Seconds { seconds } => (
            Some(UnitMsgid { msgid: "second", plural: "seconds", count: seconds }),
            None,
        ),
    }
}

/// Whether `word` is what `translate` gave for the unit in a slot; an empty
/// slot takes no word.
pub open spec fn translated_slot<F: Fn(UnitMsgid) -> String>(
    translate: F,
    slot: Option<UnitMsgid>,
    word: Seq<char>,
) -> bool {
    match slot {
        Some(u) => exists|w: String| call_ensures(translate, (u,), w) && w@ == word,
        None => word == Seq::<char>::empty(),
    }
}

/// Whether `word` is what `ngettext` gave for the unit in a slot; an empty
/// slot takes no word.
pub open spec fn plural_slot(slot: Option<UnitMsgid>, word: Seq<char>) -> bool {
    match slot {
        Some(u) => exists|w: String|
            crate::i18n::is_plural_translation_of(u.msgid@, u.plural@, u.count, w) && w@ == word,
        None => word == Seq::<char>::empty(),
    }
}

/// A word that a translator giving `ngettext` results gave for a slot is
/// such a result.
proof fn lemma_plural_slot<F: Fn(UnitMsgid) -> String>(translate: F, slot: Option<UnitMsgid>, word: Seq<char>)
    requires
        translated_slot(translate, slot, word),
        forall|u: UnitMsgid, w: String|
            call_ensures(translate, (u,), w) ==> crate::i18n::is_plural_translation_of(
                u.msgid@,
                u.plural@,
                u.count,
                w,
            ),
    ensures
        plural_slot(slot, word),
{
    match slot {
        Some(u) => {
            let w = choose|w: String| call_ensures(translate, (u,), w) && w@ == word;
            assert(crate::i18n::is_plural_translation_of(u.msgid@, u.plural@, u.count, w));
        },
        None => {},
    }
}

/// The text of a time left, with each unit word asked of `translate` for
/// the message, plural and count that `unit_msgids` gives.
pub fn estimate_text_with<F: Fn(UnitMsgid) -> String>(t: TimeLeft, translate: &F) -> (r: String)
    requires
        forall|u: UnitMsgid| is_unit_msgid(u) ==> call_requires(*translate, (u,)),
    ensures
        exists|first: Seq<char>, second: Seq<char>|
            translated_slot(*translate, unit_slots(t).0, first) && translated_slot(
                *translate,
                unit_slots(t).1,
                second,
            ) && r@ == time_left_text(t, first, second),
{
    let (a, b) = unit_msgids(t);
    let first = match a {
        Some(u) => translate(u),
        None => String::new(),
    };
    let second = match b {
        Some(u) => translate(u),
        None => String::new(),
    };
    let r = format_time_left(t, first.as_str(), second.as_str());
    assert(translated_slot(*translate, unit_slots(t).0, first@));
    assert(translated_slot(*translate, unit_slots(t).1, second@));
    r
}

/// How a number of seconds is shown.
pub open spec fn breakdown(secs: u32) -> TimeLeft {
    if secs > 6000 {
        TimeLeft::Hours { hours: secs / 3600, remainder: secs % 3600 }
    } else if secs > 100 {
        TimeLeft::Minutes { minutes: secs / 60, seconds: secs % 60 }
    } else {
        TimeLeft::Seconds { seconds: secs }
    }
}

/// The time left that an estimator shows.
pub open spec fn time_left_of(v: EtaView) -> TimeLeft {
    match estimate_secs(v) {
        None => TimeLeft::Unknown,
        Some(s) => breakdown(s),
    }
}

/// How a step moves the estimator's clock mark. The first step marks the
/// clock and takes no sample. A later one takes a sample exactly when at
/// least one whole second was read since the mark: the bytes of that second
/// go in front of the window, the second is counted, and the mark moves to
/// the reading the seconds were measured to; with less than a second, the
/// mark and the window stay. With `step_with`'s contract (the seconds are
/// those read from the mark to the step's own clock reading), samples are
/// taken at least one whole second apart.
pub proof fn law_sample_moves_mark(v: EtaView, total_transferred: usize, now: Instant, whole_secs: u64)
    requires
        v.wf(),
        can_step(v, total_transferred),
    ensures
        ({
            let w = stepped(v, total_transferred, now, whole_secs);
            let bytes = v.transferred_this_sec + (total_transferred - v.total_transferred);
            &&& v.last_sec is None ==> w.last_sec == Some(now) && w.window == v.window
                && w.seconds_elapsed == v.seconds_elapsed && w.transferred_this_sec == bytes
            &&& (v.last_sec is Some && whole_secs >= 1) ==> w.last_sec == Some(now)
                && w.seconds_elapsed == v.seconds_elapsed + 1 && w.window.len() > 0 && w.window[0]
                == bytes && w.transferred_this_sec == 0
            &&& (v.last_sec is Some && whole_secs == 0) ==> w.last_sec == v.last_sec && w.window
                == v.window && w.seconds_elapsed == v.seconds_elapsed && w.transferred_this_sec
                == bytes
            &&& w.total_transferred == total_transferred
        }),
{
}

/// A fresh estimator holds its counts together: no sample, no second
/// marked, and nothing counted.
pub proof fn law_fresh_estimator_is_well_formed(v: EtaView, total_len: usize)
    requires
        v.fresh(total_len),
    ensures
        v.wf(),
        v.window.len() == 0,
{
}

/// Each step keeps an estimator's counts together (one sample per second
/// marked, up to `STEPS_TRACK_COUNT`; an unmarked clock with no second and
/// no sample; the samples and this second's bytes adding up to the bytes
/// transferred until a sample is dropped) and records the new byte count.
/// With the law above, this holds of every estimator that `new` or
/// `prepare_for_new_transfer` makes and `step_with` moves.
pub proof fn law_step_keeps_counts(v: EtaView, total_transferred: usize, now: Instant, whole_secs: u64)
    requires
        v.wf(),
        can_step(v, total_transferred),
    ensures
        stepped(v, total_transferred, now, whole_secs).wf(),
        stepped(v, total_transferred, now, whole_secs).total_transferred == total_transferred,
{
    let this_sec = (v.transferred_this_sec + (total_transferred - v.total_transferred)) as usize;
    lemma_rolled_window_sum(v.window, this_sec);
}

/// An estimator that has just started over, with bytes to move, shows no
/// estimate: the time left is unknown until a second of progress is sampled.
pub proof fn law_fresh_estimate_is_unknown(v: EtaView, total_len: usize)
    requires
        v.fresh(total_len),
        total_len > 0,
    ensures
        time_left_of(v) == TimeLeft::Unknown,
{
}

/// A time left is broken down without losing a second: the whole hours (or
/// minutes) and what is past them add back up to the seconds; minutes keep
/// fewer than 60 seconds past them; more than 6000 seconds are shown in
/// hours, more than 100 in minutes, and the rest in seconds.
pub proof fn law_breakdown_adds_up(secs: u32)
    ensures
        breakdown(secs) matches TimeLeft::Hours { hours, remainder } ==> secs > 6000 && hours * 3600
            + remainder == secs && remainder < 3600,
        breakdown(secs) matches TimeLeft::Minutes { minutes, seconds } ==> 100 < secs <= 6000
            && minutes * 60 + seconds == secs && seconds < 60,
        breakdown(secs) matches TimeLeft::Seconds { seconds } ==> secs <= 100 && seconds == secs,
        !(breakdown(secs) is Unknown),
{
}

/// The estimate is the bytes left over the average speed of the samples,
/// rounded down: at that speed, the estimated seconds move at most the bytes
/// left, and one more second would move more (unless the estimate is capped
/// at `u32::MAX`). With nothing left (or more moved than announced, at some
/// speed) it is zero, and with no speed while the count is off there is none.
pub proof fn law_estimate_matches_speed(v: EtaView)
    ensures
        ({
            let n = v.window.len() as int;
            let sum = sum_of(v.window) as int;
            let left = v.total_len - v.total_transferred;
            &&& left == 0 ==> estimate_secs(v) == Some(0u32)
            &&& left < 0 && n > 0 && sum > 0 ==> estimate_secs(v) == Some(0u32)
            &&& (n == 0 || sum == 0) && left != 0 ==> estimate_secs(v) is None
            &&& n > 0 && sum > 0 && left > 0 ==> (estimate_secs(v) matches Some(q) && q * sum <= left
                * n && (q < u32::MAX ==> left * n < (q + 1) * sum))
        }),
{
    let n = v.window.len() as int;
    let sum = sum_of(v.window) as int;
    let left = v.total_len - v.total_transferred;
    if n > 0 && sum > 0 && left > 0 {
        let q = left * n / sum;
        assert(q * sum <= left * n && left * n < (q + 1) * sum) by (nonlinear_arith)
            requires
                sum > 0,
                left * n >= 0,
                q == left * n / sum,
        ;
        if q > u32::MAX {
            assert(u32::MAX * sum <= q * sum) by (nonlinear_arith)
                requires
                    sum > 0,
                    q > u32::MAX,
            ;
        }
    }
}

/// Breaks a number of seconds down for display.
pub fn breakdown_secs(secs: u32) -> (r: TimeLeft)
    ensures
        r == breakdown(secs),
{
    if secs > 6000 {
        TimeLeft::Hours { hours: secs / 3600, remainder: secs % 3600 }
    } else if secs > 100 {
        TimeLeft::Minutes { minutes: secs / 60, seconds: secs % 60 }
    } else {
        TimeLeft::Seconds { seconds: secs }
    }
}

/// The decimal digits of `n`.
pub open spec fn decimal(n: nat) -> Seq<char>
    decreases n,
{
    if n < 10 {
        seq![digit_char(n)]
    } else {
        decimal(n / 10).push(digit_char(n % 10))
    }
}

/// The character of a decimal digit.
pub open spec fn digit_char(d: nat) -> char {
    ('0' as u32 + d) as char
}

/// `s` right-aligned in a field of `width` characters, as `{:width}` pads.
pub open spec fn right_aligned(s: Seq<char>, width: nat) -> Seq<char> {
    if s.len() < width {
        Seq::new((width - s.len()) as nat, |i: int| ' ') + s
    } else {
        s
    }
}

/// The text of a time left, given the unit words that go with its numbers.
pub open spec fn time_left_text(t: TimeLeft, first_unit: Seq<char>, second_unit: Seq<char>) -> Seq<char> {
    match t {
        TimeLeft::Unknown => "Unknown"@,
        TimeLeft::Hours { hours, remainder } => right_aligned(decimal(hours as nat), 3) + seq![' ']
            + first_unit + seq![' '] + right_aligned(decimal(remainder as nat), 2) + seq![' ']
            + second_unit,
        TimeLeft::Minutes { minutes, seconds } => right_aligned(decimal(minutes as nat), 3) + seq![
            ' ',
        ] + first_unit + seq![' '] + right_aligned(decimal(seconds as nat), 2) + seq![' ']
            + second_unit,
        TimeLeft::Seconds { seconds } => right_aligned(decimal(seconds as nat), 3) + seq![' ']
            + first_unit,
    }
}

/// `String::push`: appends a character, as std documents.
#[verifier::external_body]
pub(crate) fn push_char(s: &mut String, c: char)
    ensures
        final(s)@ == old(s)@.push(c),
{
    s.push(c)
}

proof fn lemma_decimal_len(n: nat)
    ensures
        1 <= decimal(n).len(),
        n < 10 ==> decimal(n).len() == 1,
        10 <= n < 100 ==> decimal(n).len() == 2,
        n >= 100 ==> decimal(n).len() >= 3,
    decreases n,
{
    if n >= 10 {
        lemma_decimal_len(n / 10);
    }
}

/// The text of a time left, given the unit words for its numbers: the first
/// goes with the larger unit, the second with the smaller one.
pub fn format_time_left(t: TimeLeft, first_unit: &str, second_unit: &str) -> (r: String)
    ensures
        r@ == time_left_text(t, first_unit@, second_unit@),
{
    let mut out = String::new();
    match t {
        TimeLeft::Unknown => {
            out.append("Unknown");
        },
        TimeLeft::Hours { hours: a, remainder: b } | TimeLeft::Minutes { minutes: a, seconds: b } => {
            push_right_aligned(&mut out, a, 3);
            push_char(&mut out, ' ');
            out.append(first_unit);
            push_char(&mut out, ' ');
            push_right_aligned(&mut out, b, 2);
            push_char(&mut out, ' ');
            out.append(second_unit);
        },
        TimeLeft::Seconds { seconds } => {
            push_right_aligned(&mut out, seconds, 3);
            push_char(&mut out, ' ');
            out.append(first_unit);
        },
    }
    out
}

/// Appends the decimal digits of `n`.
fn push_decimal(out: &mut String, n: u32)
    ensures
        final(out)@ == old(out)@ + decimal(n as nat),
    decreases n,
{
    if n < 10 {
        let c = digit_of(n);
        push_char(out, c);
        assert(old(out)@.push(c) =~= old(out)@ + decimal(n as nat));
    } else {
        push_decimal(out, n / 10);
        let c = digit_of(n % 10);
        push_char(out, c);
        assert(old(out)@ + decimal((n / 10) as nat) + seq![c] =~= old(out)@ + decimal(n as nat));
    }
}

fn digit_of(d: u32) -> (c: char)
    requires
        d < 10,
    ensures
        c == digit_char(d as nat),
{
    if d == 0 { '0' }
    else if d == 1 { '1' }
    else if d == 2 { '2' }
    else if d == 3 { '3' }
    else if d == 4 { '4' }
    else if d == 5 { '5' }
    else if d == 6 { '6' }
    else if d == 7 { '7' }
    else if d == 8 { '8' }
    else { '9' }
}

/// Appends `n` right-aligned in a field of `width` characters.
fn push_right_aligned(out: &mut String, n: u32, width: usize)
    requires
        width <= 3,
    ensures
        final(out)@ == old(out)@ + right_aligned(decimal(n as nat), width as nat),
{
    proof { lemma_decimal_len(n as nat); }
    let digits: usize = if n < 10 { 1 } else if n < 100 { 2 } else { 3 };
    let mut pad: usize = 0;
    let ghost len = decimal(n as nat).len();
    let ghost spaces = if len < width { (width - len) as nat } else { 0nat };
    while digits + pad < width
        invariant
            digits <= 3,
            width <= 3,
            (len < width ==> digits == len) && (len >= width ==> digits >= width),
            spaces == (if len < width { (width - len) as nat } else { 0nat }),
            pad <= spaces,
            out@ == old(out)@ + Seq::new(pad as nat, |i: int| ' '),
        decreases width - pad,
    {
        push_char(out, ' ');
        assert(Seq::new(pad as nat, |i: int| ' ').push(' ') =~= Seq::new((pad + 1) as nat, |i: int| ' '));
        pad = pad + 1;
    }
    push_decimal(out, n);
    assert(Seq::new(pad as nat, |i: int| ' ') + decimal(n as nat) =~= right_aligned(decimal(n as nat), width as nat));
}

} // verus!
