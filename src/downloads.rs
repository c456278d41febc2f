use std::fmt::Write;

use vstd::prelude::*;

use crate::text::{after_last, find_last, last_index_of, lemma_last_index_bounds, str_eq};

verus! {

/// Identity and fetch parameters of one episode download. `pubdate` is a UTC
/// instant in seconds since the Unix epoch; `file_path` stays unset until the
/// job has chosen where to write.
#[derive(Debug, Clone)]
pub struct EpData {
    pub id: i64,
    pub pod_id: i64,
    pub title: String,
    pub url: String,
    pub pubdate: Option<i64>,
    pub file_path: Option<String>,
}

/// The one message a download job sends back when it ends.
#[derive(Debug)]
pub enum DownloadMsg {
    Complete(EpData),
    ResponseError(EpData),
    FileCreateError(EpData),
    FileWriteError(EpData),
}

impl DownloadMsg {
    pub open spec fn is_failure_spec(&self) -> bool {
        !(self is Complete)
    }

    pub open spec fn episode_spec(&self) -> EpData {
        match self {
            DownloadMsg::Complete(ep) => *ep,
            DownloadMsg::ResponseError(ep) => *ep,
            DownloadMsg::FileCreateError(ep) => *ep,
            DownloadMsg::FileWriteError(ep) => *ep,
        }
    }

    /// Whether the job ended in one of the three failures.
    pub fn is_failure(&self) -> (r: bool)
        ensures
            r == self.is_failure_spec(),
    {
        !matches!(self, DownloadMsg::Complete(_))
    }

    /// The episode the message reports on.
    pub fn episode(&self) -> (r: &EpData)
        ensures
            *r == self.episode_spec(),
    {
        match self {
            DownloadMsg::Complete(ep) => ep,
            DownloadMsg::ResponseError(ep) => ep,
            DownloadMsg::FileCreateError(ep) => ep,
            DownloadMsg::FileWriteError(ep) => ep,
        }
    }
}

/// One failed attempt taken from `remaining`: what is left, and whether the
/// job gives up.
pub open spec fn failure_step(remaining: nat) -> (nat, bool) {
    ((remaining - 1) as nat, remaining - 1 == 0)
}

/// How many attempts a job makes from `remaining` when every attempt fails.
pub open spec fn attempts_when_failing(remaining: nat) -> nat
    decreases remaining,
{
    if remaining == 0 || failure_step(remaining).1 {
        1
    } else {
        1 + attempts_when_failing(failure_step(remaining).0)
    }
}

/// The attempts left to one fetch. It is positive until a failure spends it.
pub struct RetryBudget {
    remaining: usize,
}

impl RetryBudget {
    pub closed spec fn left(&self) -> nat {
        self.remaining as nat
    }

    /// A budget of `max_retries` attempts in all.
    pub fn new(max_retries: usize) -> (r: RetryBudget)
        requires
            max_retries >= 1,
        ensures
            r.left() == max_retries,
    {
        RetryBudget { remaining: max_retries }
    }

    pub fn remaining(&self) -> (r: usize)
        ensures
            r == self.left(),
    {
        self.remaining
    }

    /// Spends one attempt on a transport failure; `true` when none is left
    /// and the job must give up.
    pub fn record_failure(&mut self) -> (exhausted: bool)
        requires
            old(self).left() >= 1,
        ensures
            (final(self).left(), exhausted) == failure_step(old(self).left()),
    {
        self.remaining = self.remaining - 1;
        self.remaining == 0
    }
}

/// A job whose transport fails every time makes exactly as many attempts as
/// its budget holds before it gives up.
pub proof fn lemma_failing_transport_spends_budget(budget: nat)
    requires
        budget >= 1,
    ensures
        attempts_when_failing(budget) == budget,
    decreases budget,
{
    if budget > 1 {
        lemma_failing_transport_spends_budget((budget - 1) as nat);
    }
}

/// The message that ends a job once its file step ran: the file could not be
/// created, or its bytes not all written, or the download is complete.
pub fn persist_outcome(ep: EpData, created: bool, written: bool) -> (r: DownloadMsg)
    ensures
        r.episode_spec() == ep,
        !created ==> r is FileCreateError,
        created && !written ==> r is FileWriteError,
        created && written ==> r is Complete,
{
    if !created {
        DownloadMsg::FileCreateError(ep)
    } else if !written {
        DownloadMsg::FileWriteError(ep)
    } else {
        DownloadMsg::Complete(ep)
    }
}

/// The extension that the fixed MIME table gives a content type, if it lists it.
pub open spec fn mime_table_ext(m: Seq<char>) -> Option<Seq<char>> {
    if m == "audio/3gpp"@ {
        Some("3gp"@)
    } else if m == "audio/aac"@ {
        Some("aac"@)
    } else if m == "audio/x-m4a"@ {
        Some("m4a"@)
    } else if m == "audio/midi"@ {
        Some("mid"@)
    } else if m == "audio/x-midi"@ {
        Some("mid"@)
    } else if m == "audio/mpeg"@ {
        Some("mp3"@)
    } else if m == "audio/ogg"@ {
        Some("oga"@)
    } else if m == "audio/opus"@ {
        Some("opus"@)
    } else if m == "audio/wav"@ {
        Some("wav"@)
    } else if m == "audio/webm"@ {
        Some("weba"@)
    } else if m == "video/quicktime"@ {
        Some("mov"@)
    } else if m == "video/mp4"@ {
        Some("mp4"@)
    } else if m == "video/x-m4v"@ {
        Some("m4v"@)
    } else {
        None
    }
}

/// The last `/`-delimited segment of a URL.
pub open spec fn url_file_name(url: Seq<char>) -> Seq<char> {
    after_last(url, '/')
}

/// The text after the last `.` of the URL's last segment, if that segment has a `.`.
pub open spec fn url_ext(url: Seq<char>) -> Option<Seq<char>> {
    let name = url_file_name(url);
    if last_index_of(name, '.') >= 0 {
        Some(after_last(name, '.'))
    } else {
        None
    }
}

/// Extension from the content type when the table lists it, else from the URL.
pub open spec fn file_ext(mime: Option<Seq<char>>, url: Seq<char>) -> Option<Seq<char>> {
    match mime {
        Some(m) if mime_table_ext(m) is Some => mime_table_ext(m),
        _ => url_ext(url),
    }
}

pub open spec fn opt_str_view(o: Option<&str>) -> Option<Seq<char>> {
    match o {
        Some(s) => Some(s@),
        None => None,
    }
}

fn mime_lookup(m: &str) -> (r: Option<&'static str>)
    ensures
        opt_str_view(r) == mime_table_ext(m@),
{
    if str_eq(m, "audio/3gpp") {
        Some("3gp")
    } else if str_eq(m, "audio/aac") {
        Some("aac")
    } else if str_eq(m, "audio/x-m4a") {
        Some("m4a")
    } else if str_eq(m, "audio/midi") {
        Some("mid")
    } else if str_eq(m, "audio/x-midi") {
        Some("mid")
    } else if str_eq(m, "audio/mpeg") {
        Some("mp3")
    } else if str_eq(m, "audio/ogg") {
        Some("oga")
    } else if str_eq(m, "audio/opus") {
        Some("opus")
    } else if str_eq(m, "audio/wav") {
        Some("wav")
    } else if str_eq(m, "audio/webm") {
        Some("weba")
    } else if str_eq(m, "video/quicktime") {
        Some("mov")
    } else if str_eq(m, "video/mp4") {
        Some("mp4")
    } else if str_eq(m, "video/x-m4v") {
        Some("m4v")
    } else {
        None
    }
}

/// Returns what the extension of a downloaded file should be, based first on
/// its content type, and then on its URL if the content type is missing or
/// unknown. `None` when neither gives one.
pub fn get_file_ext<'a>(mime_type: Option<&str>, url: &'a str) -> (r: Option<&'a str>)
    ensures
        opt_str_view(r) == file_ext(opt_str_view(mime_type), url@),
{
    if let Some(m) = mime_type {
        if let Some(ext) = mime_lookup(m) {
            return Some(ext);
        }
    }
    let n = url.unicode_len();
    proof {
        lemma_last_index_bounds(url@, '/');
    }
    let start: usize = match find_last(url, '/') {
        Some(k) => k + 1,
        None => 0,
    };
    let name = url.substring_char(start, n);
    assert(name@ == url_file_name(url@));
    proof {
        lemma_last_index_bounds(name@, '.');
    }
    match find_last(name, '.') {
        Some(k) => {
            let ext = name.substring_char(k + 1, name.unicode_len());
            Some(ext)
        },
        None => None,
    }
}


/// Characters that a filename may not hold on the most restrictive common
/// convention (Windows), control characters included.
pub open spec fn is_illegal_char(c: char) -> bool {
    c == '/' || c == '?' || c == '<' || c == '>' || c == '\\' || c == ':' || c == '*' || c == '|'
        || c == '"' || ('\u{0}' <= c <= '\u{1f}') || ('\u{80}' <= c <= '\u{9f}')
}

pub open spec fn free_of_illegal_chars(s: Seq<char>) -> bool {
    forall|i: int| 0 <= i < s.len() ==> !is_illegal_char(#[trigger] s[i])
}

/// What sanitize_filename makes of a title, Windows rules, truncation on,
/// illegal characters replaced by nothing.
pub uninterp spec fn sanitized_name(title: Seq<char>) -> Seq<char>;

/// Relies on `sanitize_filename::sanitize_with_options`: with an empty
/// replacement every illegal and control character is removed, and the
/// later steps only remove text or keep a prefix of at most 255 bytes.
#[verifier::external_body]
fn sanitize_windows(title: &str) -> (r: String)
    ensures
        r@ == sanitized_name(title@),
        free_of_illegal_chars(r@),
        r@.len() <= 255,
{
    sanitize_filename::sanitize_with_options(
        title,
        sanitize_filename::Options { truncate: true, windows: true, replacement: "" },
    )
}

/// What chrono renders for a strftime-style template at a UTC instant given
/// in seconds since the Unix epoch; `None` when the instant is out of range
/// or the template does not render.
pub uninterp spec fn rendered_date(secs: i64, template: Seq<char>) -> Option<Seq<char>>;

/// Relies on `chrono::DateTime::<Utc>::from_timestamp` and on the `Display`
/// of `DateTime::format`, which reports an unrenderable template as an error.
#[verifier::external_body]
fn render_date(secs: i64, template: &str) -> (r: Option<String>)
    ensures
        match r {
            Some(s) => rendered_date(secs, template@) == Some(s@),
            None => rendered_date(secs, template@) is None,
        },
{
    let date = chrono::DateTime::<chrono::Utc>::from_timestamp(secs, 0)?;
    let mut out = String::new();
    match write!(out, "{}", date.format(template)) {
        Ok(()) => Some(out),
        Err(_) => None,
    }
}

/// The base filename: the sanitized title, framed by the rendered templates
/// when a publish date is known. `None` when a template does not render.
pub open spec fn file_stem_of(
    title: Seq<char>,
    pubdate: Option<i64>,
    prefix: Seq<char>,
    suffix: Seq<char>,
) -> Option<Seq<char>> {
    let name = sanitized_name(title);
    match pubdate {
        None => Some(name),
        Some(d) => match (rendered_date(d, prefix), rendered_date(d, suffix)) {
            (Some(p), Some(s)) => Some(p + name + s),
            _ => None,
        },
    }
}

/// The extension a download is saved under: resolved, or `mp3`.
pub open spec fn ext_or_default(mime: Option<Seq<char>>, url: Seq<char>) -> Seq<char> {
    match file_ext(mime, url) {
        Some(e) => e,
        None => "mp3"@,
    }
}

/// The full filename: stem, `.`, extension.
pub open spec fn file_name_of(
    title: Seq<char>,
    pubdate: Option<i64>,
    prefix: Seq<char>,
    suffix: Seq<char>,
    mime: Option<Seq<char>>,
    url: Seq<char>,
) -> Option<Seq<char>> {
    match file_stem_of(title, pubdate, prefix, suffix) {
        Some(stem) => Some(stem + "."@ + ext_or_default(mime, url)),
        None => None,
    }
}

/// The extension to save a download under: the resolved one, or `mp3` when
/// neither the content type nor the URL gives one.
pub fn resolve_ext<'a>(mime_type: Option<&str>, url: &'a str) -> (r: &'a str)
    ensures
        r@ == ext_or_default(opt_str_view(mime_type), url@),
{
    match get_file_ext(mime_type, url) {
        Some(ext) => ext,
        None => "mp3",
    }
}

/// Builds the base filename of an episode: its sanitized title, with the
/// prefix and suffix templates rendered at the publish date around it when
/// that date is known.
pub fn file_stem(title: &str, pubdate: Option<i64>, prefix: &str, suffix: &str) -> (r: Option<
    String,
>)
    ensures
        match r {
            Some(s) => file_stem_of(title@, pubdate, prefix@, suffix@) == Some(s@),
            None => file_stem_of(title@, pubdate, prefix@, suffix@) is None,
        },
        pubdate is None ==> (r matches Some(s) && free_of_illegal_chars(s@)),
{
    let name = sanitize_windows(title);
    match pubdate {
        None => Some(name),
        Some(d) => {
            let p = render_date(d, prefix);
            let s = render_date(d, suffix);
            match (p, s) {
                (Some(mut p), Some(s)) => {
                    p.append(name.as_str());
                    p.append(s.as_str());
                    Some(p)
                },
                _ => None,
            }
        },
    }
}

/// Builds the filename an episode is saved under: stem, `.`, extension.
pub fn file_name(
    title: &str,
    url: &str,
    content_type: Option<&str>,
    pubdate: Option<i64>,
    prefix: &str,
    suffix: &str,
) -> (r: Option<String>)
    ensures
        match r {
            Some(s) => file_name_of(title@, pubdate, prefix@, suffix@, opt_str_view(content_type), url@)
                == Some(s@),
            None => file_name_of(title@, pubdate, prefix@, suffix@, opt_str_view(content_type), url@) is None,
        },
{
    let ext = resolve_ext(content_type, url);
    match file_stem(title, pubdate, prefix, suffix) {
        Some(mut stem) => {
            stem.append(".");
            stem.append(ext);
            Some(stem)
        },
        None => None,
    }
}


/// One download job between its steps: the episode, the attempts left and
/// the filename templates. Each step that ends the job consumes it and hands
/// back its one message.
pub struct DownloadJob {
    ep: EpData,
    budget: RetryBudget,
    prefix: String,
    suffix: String,
}

impl DownloadJob {
    pub closed spec fn ep_spec(&self) -> EpData {
        self.ep
    }

    pub closed spec fn left(&self) -> nat {
        self.budget.left()
    }

    pub closed spec fn prefix_spec(&self) -> Seq<char> {
        self.prefix@
    }

    pub closed spec fn suffix_spec(&self) -> Seq<char> {
        self.suffix@
    }

    /// A job for `ep` with `max_retries` attempts in all.
    pub fn new(ep: EpData, max_retries: usize, prefix: String, suffix: String) -> (r: DownloadJob)
        requires
            max_retries >= 1,
        ensures
            r.ep_spec() == ep,
            r.left() == max_retries,
            r.left() >= 1,
            r.prefix_spec() == prefix@,
            r.suffix_spec() == suffix@,
    {
        DownloadJob { ep, budget: RetryBudget::new(max_retries), prefix, suffix }
    }

    /// The URL to fetch.
    pub fn url(&self) -> (r: &str)
        ensures
            r@ == self.ep_spec().url@,
    {
        self.ep.url.as_str()
    }

    /// A fetch attempt failed: the job goes on with one attempt fewer, or,
    /// when that was its last, ends with a transport failure.
    pub fn fetch_failed(self) -> (r: Result<DownloadJob, DownloadMsg>)
        requires
            self.left() >= 1,
        ensures
            match r {
                Ok(job) => {
                    &&& self.left() > 1
                    &&& job.left() == self.left() - 1
                    &&& job.ep_spec() == self.ep_spec()
                    &&& job.prefix_spec() == self.prefix_spec()
                    &&& job.suffix_spec() == self.suffix_spec()
                },
                Err(msg) => self.left() == 1 && msg == DownloadMsg::ResponseError(self.ep_spec()),
            },
    {
        let mut job = self;
        if job.budget.record_failure() {
            Err(DownloadMsg::ResponseError(job.ep))
        } else {
            Ok(job)
        }
    }

    /// The filename to save the fetched body under, given the content type
    /// the response declared.
    pub fn target_name(&self, content_type: Option<&str>) -> (r: Option<String>)
        ensures
            match r {
                Some(s) => file_name_of(
                    self.ep_spec().title@,
                    self.ep_spec().pubdate,
                    self.prefix_spec(),
                    self.suffix_spec(),
                    opt_str_view(content_type),
                    self.ep_spec().url@,
                ) == Some(s@),
                None => file_name_of(
                    self.ep_spec().title@,
                    self.ep_spec().pubdate,
                    self.prefix_spec(),
                    self.suffix_spec(),
                    opt_str_view(content_type),
                    self.ep_spec().url@,
                ) is None,
            },
    {
        file_name(
            self.ep.title.as_str(),
            self.ep.url.as_str(),
            content_type,
            self.ep.pubdate,
            self.prefix.as_str(),
            self.suffix.as_str(),
        )
    }

    /// Ends the job after its file step: `path` is where the file was to be
    /// written (none when no name could be made), `created` and `written`
    /// whether creating it and copying the body into it succeeded.
    pub fn finish(self, path: Option<String>, created: bool, written: bool) -> (r: DownloadMsg)
        ensures
            r.episode_spec() == (EpData { file_path: path, ..self.ep_spec() }),
            !created ==> r is FileCreateError,
            created && !written ==> r is FileWriteError,
            created && written ==> r is Complete,
    {
        let mut ep = self.ep;
        ep.file_path = path;
        persist_outcome(ep, created, written)
    }
}

} // verus!
