//! Translation requests: which models are tried, where each request goes,
//! how a provider's reply becomes a translation or an error, and the order
//! in which attempts are made.
use vstd::prelude::*;
use crate::clock::{now_ms, spec_id_of, spec_millis_of};
use crate::keys::ActiveProfile;
use crate::text::{opt_view, chars_of, contains, contains_str, dec_digits, decimal, is_blank, is_blank_str, lower_seq, lower_str, owned, starts_with, starts_with_str, str_eq, string_from, trim, trim_str, views};
use crate::traffic::{MAX_TRAFFIC, TrafficEntry, record_traffic, stored_as};

verus! {

/// Gemini models tried after the chosen one, in order.
pub open spec fn gemini_fallback() -> Seq<Seq<char>> {
    seq!["gemini-3.1-flash-lite"@, "gemini-3.5-flash"@, "gemini-3-flash-preview"@]
}

fn gemini_fallback_text(i: usize) -> (r: &'static str)
    requires
        i < 3,
    ensures
        r@ == gemini_fallback()[i as int],
{
    if i == 0 {
        "gemini-3.1-flash-lite"
    } else if i == 1 {
        "gemini-3.5-flash"
    } else {
        "gemini-3-flash-preview"
    }
}

/// `models` followed by those of `fallback` it does not hold yet.
pub open spec fn with_fallbacks(models: Seq<Seq<char>>, fallback: Seq<Seq<char>>) -> Seq<Seq<char>>
    decreases fallback.len(),
{
    if fallback.len() == 0 {
        models
    } else {
        let m = with_fallbacks(models, fallback.drop_last());
        if m.contains(fallback.last()) {
            m
        } else {
            m.push(fallback.last())
        }
    }
}

/// The models to try: the profile's model, then, for Gemini with fallback
/// allowed, the fallback models it does not already name.
pub open spec fn spec_models_for(p: ActiveProfile) -> Seq<Seq<char>> {
    if p.provider@ == "gemini"@ && p.fallback_models {
        with_fallbacks(seq![p.model@], gemini_fallback())
    } else {
        seq![p.model@]
    }
}

/// No model occurs twice.
pub open spec fn no_dups(s: Seq<Seq<char>>) -> bool {
    forall|i: int, j: int| 0 <= i < s.len() && 0 <= j < s.len() && i != j ==> #[trigger] s[i] != #[trigger] s[j]
}

fn contains_string(v: &Vec<String>, s: &str) -> (r: bool)
    ensures
        r == views(v@).contains(s@),
{
    let mut i: usize = 0;
    while i < v.len()
        invariant
            i <= v@.len(),
            forall|j: int| 0 <= j < i ==> v@[j]@ != s@,
        decreases v@.len() - i,
    {
        if str_eq(v[i].as_str(), s) {
            assert(views(v@)[i as int] == s@);
            return true;
        }
        i = i + 1;
    }
    assert forall|j: int| 0 <= j < v@.len() implies #[trigger] views(v@)[j] != s@ by {
        assert(views(v@)[j] == v@[j]@);
    }
    false
}

/// The models to try, in order.
pub fn models_for(profile: &ActiveProfile) -> (r: Vec<String>)
    ensures
        views(r@) == spec_models_for(*profile),
{
    let mut models: Vec<String> = Vec::new();
    models.push(profile.model.clone());
    assert(views(models@) =~= seq![profile.model@]);
    if str_eq(profile.provider.as_str(), "gemini") && profile.fallback_models {
        let mut i: usize = 0;
        assert(gemini_fallback().take(0) =~= Seq::<Seq<char>>::empty());
        while i < 3
            invariant
                i <= 3,
                views(models@) == with_fallbacks(
                    seq![profile.model@],
                    gemini_fallback().take(i as int),
                ),
            decreases 3 - i,
        {
            let model = gemini_fallback_text(i);
            let ghost pre = gemini_fallback().take(i as int);
            let ghost cur = gemini_fallback().take(i + 1);
            assert(cur.drop_last() =~= pre);
            assert(cur.last() == model@);
            if !contains_string(&models, model) {
                let ghost before = models@;
                models.push(owned(model));
                assert(views(models@) =~= views(before).push(
                    model@,
                ));
            }
            i = i + 1;
        }
        assert(gemini_fallback().take(3) =~= gemini_fallback());
    }
    models
}

/// Adding fallback models never repeats a model.
pub proof fn lemma_with_fallbacks_no_dups(models: Seq<Seq<char>>, fallback: Seq<Seq<char>>)
    requires
        no_dups(models),
    ensures
        no_dups(with_fallbacks(models, fallback)),
        with_fallbacks(models, fallback).len() >= models.len(),
        forall|i: int| 0 <= i < models.len() ==> #[trigger] with_fallbacks(models, fallback)[i] == models[i],
    decreases fallback.len(),
{
    if fallback.len() > 0 {
        lemma_with_fallbacks_no_dups(models, fallback.drop_last());
        let m = with_fallbacks(models, fallback.drop_last());
        let x = fallback.last();
        if !m.contains(x) {
            assert forall|i: int, j: int|
                0 <= i < m.push(x).len() && 0 <= j < m.push(x).len() && i != j implies #[trigger] m.push(
                x,
            )[i] != #[trigger] m.push(x)[j] by {
                if i < m.len() && j < m.len() {
                    assert(m.push(x)[i] == m[i]);
                    assert(m.push(x)[j] == m[j]);
                } else if i < m.len() {
                    assert(m.push(x)[i] == m[i]);
                } else {
                    assert(m.push(x)[j] == m[j]);
                }
            }
            assert forall|i: int| 0 <= i < models.len() implies #[trigger] m.push(x)[i] == models[i] by {
                assert(m.push(x)[i] == m[i]);
            }
        }
    }
}

/// The models tried start with the profile's model and never repeat one.
pub proof fn lemma_models_for_distinct(p: ActiveProfile)
    ensures
        no_dups(spec_models_for(p)),
        spec_models_for(p)[0] == p.model@,
        spec_models_for(p).len() >= 1,
{
    lemma_with_fallbacks_no_dups(seq![p.model@], gemini_fallback());
}

/// Outcome of one attempt that did not give a translation: try the next
/// model, or stop with this error.
pub enum AttemptError {
    Next(String),
    Stop(String),
}

/// The error code of a request that could not be sent.
pub fn send_error(is_timeout: bool) -> (r: String)
    ensures
        r@ == (if is_timeout {
            "err:timeout"@
        } else {
            "err:network"@
        }),
{
    if is_timeout {
        owned("err:timeout")
    } else {
        owned("err:network")
    }
}

/// Statuses after which the next model is tried.
pub open spec fn retryable(status: u16) -> bool {
    status == 429 || status == 500 || status == 502 || status == 503 || status == 504
}

/// The message for a failed status: `err:quota` for 429, `err:busy` when
/// the provider's message mentions high demand or trying again later, else
/// the provider's message (or `err:failed` when it gave none).
pub open spec fn status_message(status: u16, message: Option<Seq<char>>) -> Seq<char> {
    let raw = match message {
        Some(m) => m,
        None => "err:failed"@,
    };
    let lower = lower_seq(raw);
    if status == 429 {
        "err:quota"@
    } else if contains(lower, "high demand"@) || contains(lower, "try again later"@) {
        "err:busy"@
    } else {
        raw
    }
}

/// The view of an attempt error: whether to go on, and the message.
pub open spec fn attempt_view(e: AttemptError) -> (bool, Seq<char>) {
    match e {
        AttemptError::Next(m) => (true, m@),
        AttemptError::Stop(m) => (false, m@),
    }
}

/// How a failed status is handled: 401 and 403 stop with
/// `err:invalid_key`; overload and server errors move on to the next model;
/// other statuses stop.
pub open spec fn spec_status_error(status: u16, message: Option<Seq<char>>) -> (bool, Seq<char>) {
    if status == 401 || status == 403 {
        (false, "err:invalid_key"@)
    } else {
        (retryable(status), status_message(status, message))
    }
}

pub open spec fn opt_str_view(o: Option<&str>) -> Option<Seq<char>> {
    match o {
        Some(s) => Some(s@),
        None => None,
    }
}

pub fn status_error(status: u16, error_message: Option<&str>) -> (r: AttemptError)
    ensures
        attempt_view(r) == spec_status_error(status, opt_str_view(error_message)),
{
    if status == 401 || status == 403 {
        return AttemptError::Stop(owned("err:invalid_key"));
    }
    let raw = match error_message {
        Some(m) => m,
        None => "err:failed",
    };
    let lower = lower_str(raw);
    let message = if status == 429 {
        owned("err:quota")
    } else if contains_str(lower.as_str(), "high demand") || contains_str(
        lower.as_str(),
        "try again later",
    ) {
        owned("err:busy")
    } else {
        owned(raw)
    };
    if status == 429 || status == 500 || status == 502 || status == 503 || status == 504 {
        AttemptError::Next(message)
    } else {
        AttemptError::Stop(message)
    }
}

/// One part of a Gemini answer: whether it is a thought, and its text.
pub struct GeminiPart {
    pub thought: bool,
    pub text: Option<String>,
}

/// The texts of the answer parts that are not thoughts and not blank,
/// joined.
pub open spec fn gemini_text(parts: Seq<GeminiPart>) -> Seq<char>
    decreases parts.len(),
{
    if parts.len() == 0 {
        Seq::empty()
    } else {
        let p = parts.last();
        let prev = gemini_text(parts.drop_last());
        if !p.thought && p.text is Some && !is_blank(p.text->0@) {
            prev + p.text->0@
        } else {
            prev
        }
    }
}

/// The translation in a Gemini answer, trimmed; `err:empty` when there are
/// no parts or no text.
pub open spec fn spec_extract_gemini(parts: Option<Seq<GeminiPart>>) -> Result<Seq<char>, Seq<char>> {
    match parts {
        None => Err("err:empty"@),
        Some(ps) => {
            let t = trim(gemini_text(ps));
            if t.len() == 0 {
                Err("err:empty"@)
            } else {
                Ok(t)
            }
        },
    }
}

pub open spec fn result_view(r: Result<String, String>) -> Result<Seq<char>, Seq<char>> {
    match r {
        Ok(s) => Ok(s@),
        Err(e) => Err(e@),
    }
}

pub fn extract_gemini(parts: Option<&Vec<GeminiPart>>) -> (r: Result<String, String>)
    ensures
        result_view(r) == spec_extract_gemini(
            match parts {
                Some(v) => Some(v@),
                None => None,
            },
        ),
{
    let parts = match parts {
        Some(p) => p,
        None => {
            return Err(owned("err:empty"));
        },
    };
    let mut joined = String::new();
    let mut i: usize = 0;
    while i < parts.len()
        invariant
            i <= parts@.len(),
            joined@ == gemini_text(parts@.take(i as int)),
        decreases parts@.len() - i,
    {
        let ghost cur = parts@.take(i + 1);
        assert(cur.drop_last() =~= parts@.take(i as int));
        let part = &parts[i];
        if !part.thought {
            match &part.text {
                Some(t) => {
                    if !is_blank_str(t.as_str()) {
                        joined.append(t.as_str());
                    }
                },
                None => {},
            }
        }
        i = i + 1;
    }
    assert(parts@.take(i as int) =~= parts@);
    let t = trim_str(joined.as_str());
    if t.as_str().is_empty() {
        Err(owned("err:empty"))
    } else {
        Ok(t)
    }
}

/// Position of the first `c` in `s` at or after `i`.
pub open spec fn find_char_from(s: Seq<char>, c: char, i: int) -> Option<int>
    decreases s.len() - i,
{
    if i < 0 || i >= s.len() {
        None
    } else if s[i] == c {
        Some(i)
    } else {
        find_char_from(s, c, i + 1)
    }
}

/// `s` ends with `p`.
pub open spec fn ends_with(s: Seq<char>, p: Seq<char>) -> bool {
    p.len() <= s.len() && s.skip(s.len() - p.len()) == p
}

/// A reply wrapped in a Markdown code fence: the text after the fence's
/// first line, and before a closing fence (trimmed) when there is one.
pub open spec fn unfence(t: Seq<char>) -> Seq<char> {
    if starts_with(t, "```"@) {
        let a = match find_char_from(t, '\n', 0) {
            Some(i) => t.skip(i + 1),
            None => t,
        };
        if ends_with(a, "```"@) {
            trim(a.take(a.len() - "```"@.len()))
        } else {
            a
        }
    } else {
        t
    }
}

/// A reply wrapped in straight or curly double quotes, without them and
/// trimmed.
pub open spec fn unquote(t: Seq<char>) -> Seq<char> {
    if t.len() >= 2 && ((t[0] == '"' && t.last() == '"') || (t[0] == '\u{201C}' && t.last()
        == '\u{201D}')) {
        trim(t.subrange(1, t.len() - 1))
    } else {
        t
    }
}

/// A model's reply, trimmed, without a code fence and without wrapping
/// quotes.
pub open spec fn spec_clean_output(raw: Seq<char>) -> Seq<char> {
    unquote(unfence(trim(raw)))
}

fn ends_with_str(s: &str, p: &str) -> (r: bool)
    ensures
        r == ends_with(s@, p@),
{
    let sv = chars_of(s);
    let pv = chars_of(p);
    if pv.len() > sv.len() {
        return false;
    }
    let n = sv.len();
    let start = n - pv.len();
    let mut k: usize = 0;
    while k < pv.len()
        invariant
            k <= pv@.len(),
            n == sv@.len(),
            start + pv@.len() == n,
            start == sv@.len() - pv@.len(),
            sv@ == s@,
            pv@ == p@,
            forall|m: int| 0 <= m < k ==> sv@[start + m] == pv@[m],
        decreases pv@.len() - k,
    {
        if sv[start + k] != pv[k] {
            assert(s@.skip(s@.len() - p@.len())[k as int] != p@[k as int]);
            return false;
        }
        k = k + 1;
    }
    assert(s@.skip(s@.len() - p@.len()) =~= p@);
    true
}

/// Cleans a model's reply.
pub fn clean_output(raw: &str) -> (r: String)
    ensures
        r@ == spec_clean_output(raw@),
{
    proof {
        reveal_strlit("```");
    }
    let mut text = trim_str(raw);
    if starts_with_str(text.as_str(), "```") {
        let v = chars_of(text.as_str());
        let n = v.len();
        let mut i: usize = 0;
        while i < n && v[i] != '\n'
            invariant
                i <= n == v@.len(),
                find_char_from(v@, '\n', 0) == find_char_from(v@, '\n', i as int),
            decreases n - i,
        {
            i = i + 1;
        }
        if i < n {
            text = string_from(v.as_slice(), i + 1, n);
            assert(text@ =~= v@.skip(i + 1));
        }
        if ends_with_str(text.as_str(), "```") {
            let w = chars_of(text.as_str());
            let body = string_from(w.as_slice(), 0, w.len() - 3);
            assert(body@ =~= w@.take(w@.len() - 3));
            text = trim_str(body.as_str());
        }
    }
    let c = chars_of(text.as_str());
    let len = c.len();
    if len >= 2 {
        let first = c[0];
        let last = c[len - 1];
        let wrapped = (first == '"' && last == '"') || (first == '\u{201C}' && last == '\u{201D}');
        if wrapped {
            let inner = string_from(c.as_slice(), 1, len - 1);
            text = trim_str(inner.as_str());
        }
    }
    text
}

/// The view of an attempt's outcome.
pub open spec fn outcome_view(r: Result<String, AttemptError>) -> Result<Seq<char>, (bool, Seq<char>)> {
    match r {
        Ok(t) => Ok(t@),
        Err(e) => Err(attempt_view(e)),
    }
}

/// The translation in an OpenAI-style answer: the message content, or the
/// text of its first content part, trimmed and cleaned; `err:empty` (try
/// the next model) when there is none.
pub open spec fn spec_openai_text(content: Option<Seq<char>>, content_part: Option<Seq<char>>) -> Result<Seq<char>, (bool, Seq<char>)> {
    let raw = match content {
        Some(c) => c,
        None => match content_part {
            Some(c) => c,
            None => Seq::empty(),
        },
    };
    let t = trim(raw);
    if t.len() == 0 {
        Err((true, "err:empty"@))
    } else {
        Ok(spec_clean_output(t))
    }
}

pub fn openai_text(content: Option<&str>, content_part: Option<&str>) -> (r: Result<String, AttemptError>)
    ensures
        outcome_view(r) == spec_openai_text(opt_str_view(content), opt_str_view(content_part)),
{
    let raw = match content {
        Some(c) => c,
        None => match content_part {
            Some(c) => c,
            None => "",
        },
    };
    proof {
        reveal_strlit("");
    }
    let t = trim_str(raw);
    if t.as_str().is_empty() {
        Err(AttemptError::Next(owned("err:empty")))
    } else {
        Ok(clean_output(t.as_str()))
    }
}

/// What a provider answered: the HTTP status, the error message it gave,
/// the parts of a Gemini answer, and the content (or first content part's
/// text) of an OpenAI-style answer.
pub struct ProviderReply {
    pub status: u16,
    pub error_message: Option<String>,
    pub gemini_parts: Option<Vec<GeminiPart>>,
    pub openai_content: Option<String>,
    pub openai_content_part: Option<String>,
}

/// A 2xx status.
pub open spec fn is_success(status: u16) -> bool {
    200 <= status <= 299
}

/// A reply that could not be read moves on to the next model; a failed
/// status is handled by `status_error`; otherwise `answer` is the outcome.
pub open spec fn reply_outcome(
    reply: Option<ProviderReply>,
    answer: spec_fn(ProviderReply) -> Result<Seq<char>, (bool, Seq<char>)>,
) -> Result<Seq<char>, (bool, Seq<char>)> {
    match reply {
        None => Err((true, "err:unreadable"@)),
        Some(r) => if !is_success(r.status) {
            Err(spec_status_error(r.status, opt_view(r.error_message)))
        } else {
            answer(r)
        },
    }
}

/// The outcome of a Gemini answer: its cleaned text, or `err:empty` (try
/// the next model).
pub open spec fn gemini_answer(r: ProviderReply) -> Result<Seq<char>, (bool, Seq<char>)> {
    match spec_extract_gemini(
        match r.gemini_parts {
            Some(v) => Some(v@),
            None => None,
        },
    ) {
        Ok(t) => Ok(spec_clean_output(t)),
        Err(e) => Err((true, e)),
    }
}

/// The outcome of an OpenAI-style answer.
pub open spec fn openai_answer(r: ProviderReply) -> Result<Seq<char>, (bool, Seq<char>)> {
    spec_openai_text(opt_view(r.openai_content), opt_view(r.openai_content_part))
}

fn opt_as_str(o: &Option<String>) -> (r: Option<&str>)
    ensures
        opt_str_view(r) == opt_view(*o),
{
    match o {
        Some(s) => Some(s.as_str()),
        None => None,
    }
}

fn failed_status(reply: &ProviderReply) -> (r: AttemptError)
    ensures
        attempt_view(r) == spec_status_error(reply.status, opt_view(reply.error_message)),
{
    status_error(reply.status, opt_as_str(&reply.error_message))
}

/// The outcome of a request to Gemini, given its reply (`None` when the
/// body could not be read).
pub fn gemini_outcome(reply: Option<&ProviderReply>) -> (r: Result<String, AttemptError>)
    ensures
        outcome_view(r) == reply_outcome(
            match reply {
                Some(x) => Some(*x),
                None => None,
            },
            |x: ProviderReply| gemini_answer(x),
        ),
{
    let reply = match reply {
        Some(x) => x,
        None => {
            return Err(AttemptError::Next(owned("err:unreadable")));
        },
    };
    if !(200 <= reply.status && reply.status <= 299) {
        return Err(failed_status(reply));
    }
    let parts = match &reply.gemini_parts {
        Some(v) => Some(v),
        None => None,
    };
    match extract_gemini(parts) {
        Ok(text) => Ok(clean_output(text.as_str())),
        Err(e) => Err(AttemptError::Next(e)),
    }
}

/// The outcome of a request to an OpenAI-style endpoint, given its reply
/// (`None` when the body could not be read).
pub fn openai_outcome(reply: Option<&ProviderReply>) -> (r: Result<String, AttemptError>)
    ensures
        outcome_view(r) == reply_outcome(
            match reply {
                Some(x) => Some(*x),
                None => None,
            },
            |x: ProviderReply| openai_answer(x),
        ),
{
    let reply = match reply {
        Some(x) => x,
        None => {
            return Err(AttemptError::Next(owned("err:unreadable")));
        },
    };
    if !(200 <= reply.status && reply.status <= 299) {
        return Err(failed_status(reply));
    }
    openai_text(opt_as_str(&reply.openai_content), opt_as_str(&reply.openai_content_part))
}

/// Whether a profile is served by the Gemini API.
pub fn uses_gemini_api(profile: &ActiveProfile) -> (r: bool)
    ensures
        r == (profile.provider@ == "gemini"@),
{
    str_eq(profile.provider.as_str(), "gemini")
}

/// Where the request for `model` goes: Gemini's `generateContent` endpoint
/// for the model, or the profile's base URL followed by `/chat/completions`;
/// an empty base URL stops with `err:base_url`.
pub open spec fn spec_request_url(p: ActiveProfile, model: Seq<char>) -> Result<Seq<char>, (bool, Seq<char>)> {
    if p.provider@ == "gemini"@ {
        Ok("https://generativelanguage.googleapis.com/v1beta/models/"@ + model + ":generateContent"@)
    } else if p.base_url@.len() == 0 {
        Err((false, "err:base_url"@))
    } else {
        Ok(p.base_url@ + "/chat/completions"@)
    }
}

pub fn request_url(profile: &ActiveProfile, model: &str) -> (r: Result<String, AttemptError>)
    ensures
        outcome_view(r) == spec_request_url(*profile, model@),
{
    if uses_gemini_api(profile) {
        let mut url = owned("https://generativelanguage.googleapis.com/v1beta/models/");
        url.append(model);
        url.append(":generateContent");
        return Ok(url);
    }
    if profile.base_url.as_str().is_empty() {
        return Err(AttemptError::Stop(owned("err:base_url")));
    }
    let mut url = profile.base_url.clone();
    url.append("/chat/completions");
    Ok(url)
}

/// Progress of a translation through the models to try.
pub struct TranslationRun {
    pub models: Vec<String>,
    pub next: usize,
    pub last_error: String,
}

/// The result of trying models in order: the first translation, or the
/// first error that stops, or else the error of the last attempt (or
/// `err:failed` when nothing was tried).
pub open spec fn run_result(outcomes: Seq<Result<Seq<char>, (bool, Seq<char>)>>, last_error: Seq<char>) -> Result<Seq<char>, Seq<char>>
    decreases outcomes.len(),
{
    if outcomes.len() == 0 {
        Err(last_error)
    } else {
        match outcomes[0] {
            Ok(t) => Ok(t),
            Err((go_on, m)) => if go_on {
                run_result(outcomes.drop_first(), m)
            } else {
                Err(m)
            },
        }
    }
}

impl TranslationRun {
    /// Invariant of a run.
    pub open spec fn wf(&self) -> bool {
        self.next <= self.models@.len()
    }

    /// A run over the models of a profile that has tried nothing yet.
    pub fn start(profile: &ActiveProfile) -> (r: TranslationRun)
        ensures
            views(r.models@) == spec_models_for(*profile),
            r.next == 0,
            r.last_error@ == "err:failed"@,
            r.wf(),
    {
        TranslationRun { models: models_for(profile), next: 0, last_error: owned("err:failed") }
    }

    /// The next model to try, if any is left.
    pub fn next_model(&mut self) -> (r: Option<String>)
        requires
            old(self).wf(),
        ensures
            final(self).wf(),
            final(self).models == old(self).models,
            final(self).last_error == old(self).last_error,
            old(self).next < old(self).models@.len() ==> final(self).next == old(self).next + 1 && (r
                matches Some(m) && m@ == old(self).models@[old(self).next as int]@),
            old(self).next >= old(self).models@.len() ==> final(self).next == old(self).next && r is None,
    {
        if self.next < self.models.len() {
            let m = self.models[self.next].clone();
            self.next = self.next + 1;
            Some(m)
        } else {
            None
        }
    }

    /// Takes the outcome of an attempt: a translation or a stopping error
    /// ends the run; an error that goes on is remembered.
    pub fn record(&mut self, outcome: Result<String, AttemptError>) -> (r: Option<Result<String, String>>)
        ensures
            final(self).models == old(self).models,
            final(self).next == old(self).next,
            match outcome_view(outcome) {
                Ok(t) => r matches Some(Ok(x)) && x@ == t,
                Err((go_on, m)) => if go_on {
                    r is None && final(self).last_error@ == m
                } else {
                    r matches Some(Err(x)) && x@ == m
                },
            },
    {
        match outcome {
            Ok(text) => Some(Ok(text)),
            Err(AttemptError::Stop(message)) => Some(Err(message)),
            Err(AttemptError::Next(message)) => {
                self.last_error = message;
                None
            },
        }
    }

    /// The result when every model has been tried without success.
    pub fn finish(&self) -> (r: Result<String, String>)
        ensures
            r matches Err(m) && m@ == self.last_error@,
    {
        Err(self.last_error.clone())
    }
}

/// Recording outcomes one by one, in the order the models are tried, ends
/// with the result of `run_result` over those outcomes.
pub proof fn lemma_run_result_step(
    o: Result<Seq<char>, (bool, Seq<char>)>,
    rest: Seq<Result<Seq<char>, (bool, Seq<char>)>>,
    last_error: Seq<char>,
)
    ensures
        run_result(seq![o] + rest, last_error) == match o {
            Ok(t) => Ok(t),
            Err((go_on, m)) => if go_on {
                run_result(rest, m)
            } else {
                Err(m)
            },
        },
{
    assert((seq![o] + rest).drop_first() =~= rest);
}

/// Logs one attempt: the profile's provider and name, the model, the texts
/// sent and received, the time taken, and the time of logging.
pub fn log_attempt(
    traffic: &mut Vec<TrafficEntry>,
    profile: &ActiveProfile,
    model: &str,
    source: &str,
    system_prompt: &str,
    user_message: &str,
    response: &str,
    error: &str,
    elapsed_ms: u64,
)
    ensures
        final(traffic)@.len() == if old(traffic)@.len() + 1 <= MAX_TRAFFIC {
            old(traffic)@.len() + 1
        } else {
            MAX_TRAFFIC as nat
        },
        forall|i: int| 1 <= i < final(traffic)@.len() ==> #[trigger] final(traffic)@[i] == old(traffic)@[i - 1],
        ({
            let e = final(traffic)@[0];
            &&& e.provider@ == profile.provider@
            &&& e.model@ == model@
            &&& e.profile_name@ == profile.name@
            &&& e.elapsed_ms == elapsed_ms
            &&& e.source@ == crate::text::clipped(source@, 8000)
            &&& e.system_prompt@ == crate::text::clipped(system_prompt@, 12000)
            &&& e.user_message@ == crate::text::clipped(user_message@, 12000)
            &&& e.response@ == crate::text::clipped(response@, 12000)
            &&& e.error@ == crate::text::clipped(error@, 2000)
            &&& exists|n: Option<u128>| e.at_ms == spec_millis_of(n)
            &&& exists|n: Option<u128>| e.id@ == spec_id_of(n)
        }),
{
    let mut id = decimal(elapsed_ms);
    id.append("-");
    let len = decimal(model.len() as u64);
    id.append(len.as_str());
    let entry = TrafficEntry {
        id: id,
        at_ms: now_ms(),
        provider: profile.provider.clone(),
        model: owned(model),
        profile_name: profile.name.clone(),
        elapsed_ms: elapsed_ms,
        source: owned(source),
        system_prompt: owned(system_prompt),
        user_message: owned(user_message),
        response: owned(response),
        error: owned(error),
    };
    record_traffic(traffic, entry);
}


/// Cleaning a reply only trims it, unless the trimmed reply opens a code
/// fence or is wrapped in a matching pair of quotes (straight `"` at both
/// ends, or curly `\u{201C}` at the start and `\u{201D}` at the end); a
/// reply wrapped in such a pair loses exactly those two characters (and the
/// space inside them).
pub proof fn lemma_clean_output_only_trims(raw: Seq<char>)
    ensures
        ({
            let t = trim(raw);
            let wrapped = t.len() >= 2 && ((t[0] == '"' && t[t.len() - 1] == '"') || (t[0]
                == '\u{201C}' && t[t.len() - 1] == '\u{201D}'));
            &&& (!starts_with(t, "```"@) && !wrapped) ==> spec_clean_output(raw) == t
            &&& (!starts_with(t, "```"@) && wrapped) ==> spec_clean_output(raw) == trim(
                t.subrange(1, t.len() - 1),
            )
        }),
{
}


/// A rejected key (401 or 403) stops with `err:invalid_key`; a quota error
/// (429) tries the next model with `err:quota`; server errors (500, 502,
/// 503, 504) try the next model; any other failed status stops. Otherwise a
/// message that speaks of high demand or of trying again later (in any case)
/// becomes `err:busy`, any other message is passed on as it is, and a missing
/// one becomes `err:failed`.
pub proof fn lemma_failed_status(status: u16, message: Option<Seq<char>>)
    ensures
        (status == 401 || status == 403) ==> spec_status_error(status, message) == (false, "err:invalid_key"@),
        status == 429 ==> spec_status_error(status, message) == (true, "err:quota"@),
        (status == 500 || status == 502 || status == 503 || status == 504) ==> spec_status_error(
            status,
            message,
        ).0,
        !(status == 429 || status == 500 || status == 502 || status == 503 || status == 504)
            ==> !spec_status_error(status, message).0,
        (status != 401 && status != 403 && status != 429) ==> match message {
            Some(m) => spec_status_error(status, message).1 == if contains(lower_seq(m), "high demand"@)
                || contains(lower_seq(m), "try again later"@) {
                "err:busy"@
            } else {
                m
            },
            None => spec_status_error(status, message).1 == "err:failed"@,
        },
{
    reveal_strlit("err:failed");
    reveal_strlit("high demand");
    reveal_strlit("try again later");
    if message is None {
        let lower = lower_seq("err:failed"@);
        assert(lower =~= "err:failed"@) by {
            assert forall|i: int| 0 <= i < lower.len() implies lower[i] == "err:failed"@[i] by {
                crate::rule_table_laws::lemma_small_index(i);
            }
        }
        assert(!contains(lower, "high demand"@)) by {
            assert forall|k: int| 0 <= k < lower.len() implies lower[k] != 'h' by {
                crate::rule_table_laws::lemma_small_index(k);
            }
            crate::rule_table_laws::lemma_absent(lower, "high demand"@, 0);
        }
        assert(!contains(lower, "try again later"@)) by {
            assert forall|k: int| 0 <= k < lower.len() implies lower[k] != 'y' by {
                crate::rule_table_laws::lemma_small_index(k);
            }
            crate::rule_table_laws::lemma_absent(lower, "try again later"@, 2);
        }
    }
}

} // verus!
