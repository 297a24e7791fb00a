//! The configuration file's format.
//!
//! The file is a text of sections. A section is a header line `[name]`, an
//! `endpoint=<url>` line and, optionally, an `api_key=<value>` line, in this
//! order. Empty lines are skipped. Lines end with a line feed; what follows a
//! key's `=` is taken as it stands.

use vstd::prelude::*;
use vstd::string::*;
use crate::utils::config::{
    environment_views, has_name, position_of, Configuration, Configurations, ConfigurationView,
};
use crate::utils::laws::lemma_read_text_well_formed;
use crate::utils::text::{
    chars_of, line_spans, newline, optional_text, spans_mark, split_lines, starts_with,
};

verus! {

/// The key that introduces an environment's endpoint.
pub open spec fn endpoint_key() -> Seq<char> {
    seq!['e', 'n', 'd', 'p', 'o', 'i', 'n', 't', '=']
}

/// The key that introduces an environment's API key.
pub open spec fn api_key_key() -> Seq<char> {
    seq!['a', 'p', 'i', '_', 'k', 'e', 'y', '=']
}

/// What one line of the file says.
pub enum Line {
    /// An empty line.
    Blank,
    /// `[name]`, with a name of at least one character.
    Header(Seq<char>),
    /// `endpoint=<url>`, with a URL of at least one character.
    Endpoint(Seq<char>),
    /// `api_key=<value>`.
    ApiKey(Seq<char>),
    /// Anything else.
    Unknown,
}

/// Reads one line.
pub open spec fn classify(line: Seq<char>) -> Line {
    if line.len() == 0 {
        Line::Blank
    } else if line[0] == '[' {
        if line.len() >= 3 && line.last() == ']' {
            Line::Header(line.subrange(1, line.len() - 1))
        } else {
            Line::Unknown
        }
    } else if endpoint_key().is_prefix_of(line) {
        if line.len() > endpoint_key().len() {
            Line::Endpoint(line.skip(endpoint_key().len() as int))
        } else {
            Line::Unknown
        }
    } else if api_key_key().is_prefix_of(line) {
        Line::ApiKey(line.skip(api_key_key().len() as int))
    } else {
        Line::Unknown
    }
}

/// How far a reader has come: the environments read in full, and the name
/// of a section whose endpoint is still to come.
pub struct Progress {
    pub environments: Seq<ConfigurationView>,
    pub pending: Option<Seq<char>>,
}

/// The reader's progress after `line`, or `None` where the line is out of
/// place: a header must not repeat a name nor follow a header, an endpoint
/// must follow a header, and an API key must follow an endpoint.
pub open spec fn accept_line(progress: Progress, line: Line) -> Option<Progress> {
    match line {
        Line::Blank => Some(progress),
        Line::Header(name) => {
            if progress.pending is None && !has_name(progress.environments, name) {
                Some(Progress { environments: progress.environments, pending: Some(name) })
            } else {
                None
            }
        },
        Line::Endpoint(endpoint) => {
            match progress.pending {
                Some(name) => Some(
                    Progress {
                        environments: progress.environments.push(
                            ConfigurationView { name, endpoint, api_key: None },
                        ),
                        pending: None,
                    },
                ),
                None => None,
            }
        },
        Line::ApiKey(key) => {
            if progress.pending is None && progress.environments.len() > 0
                && progress.environments.last().api_key is None {
                Some(
                    Progress {
                        environments: progress.environments.drop_last().push(
                            ConfigurationView {
                                name: progress.environments.last().name,
                                endpoint: progress.environments.last().endpoint,
                                api_key: Some(key),
                            },
                        ),
                        pending: None,
                    },
                )
            } else {
                None
            }
        },
        Line::Unknown => None,
    }
}

/// The reader's progress after all of `lines`, from the first on.
pub open spec fn read_lines(lines: Seq<Seq<char>>) -> Option<Progress>
    decreases lines.len(),
{
    if lines.len() == 0 {
        Some(Progress { environments: Seq::empty(), pending: None })
    } else {
        match read_lines(lines.drop_last()) {
            Some(progress) => accept_line(progress, classify(lines.last())),
            None => None,
        }
    }
}

/// The environments that `text` describes, or `None` where it does not
/// follow the format.
pub open spec fn read_text(text: Seq<char>) -> Option<Seq<ConfigurationView>> {
    match read_lines(split_lines(text)) {
        Some(progress) => if progress.pending is None {
            Some(progress.environments)
        } else {
            None
        },
        None => None,
    }
}

/// The lines that describe one environment.
pub open spec fn environment_lines(environment: ConfigurationView) -> Seq<Seq<char>> {
    let header = seq!['['] + environment.name + seq![']'];
    let endpoint = endpoint_key() + environment.endpoint;
    match environment.api_key {
        Some(key) => seq![header, endpoint, api_key_key() + key],
        None => seq![header, endpoint],
    }
}

/// The lines that describe `environments`, one environment after the other.
pub open spec fn configuration_lines(environments: Seq<ConfigurationView>) -> Seq<Seq<char>>
    decreases environments.len(),
{
    if environments.len() == 0 {
        Seq::empty()
    } else {
        configuration_lines(environments.drop_last()) + environment_lines(environments.last())
    }
}

/// One environment as text: `[name]`, a line feed, `endpoint=` and the
/// endpoint and, where there is a key, a line feed, `api_key=` and the key.
pub open spec fn environment_text(environment: ConfigurationView) -> Seq<char> {
    seq!['['] + environment.name + seq![']', newline()] + endpoint_key() + environment.endpoint
        + match environment.api_key {
        Some(key) => seq![newline()] + api_key_key() + key,
        None => Seq::empty(),
    }
}

/// A whole file as text: its environments as text, with a line feed between
/// neighbours.
pub open spec fn configuration_text(environments: Seq<ConfigurationView>) -> Seq<char>
    decreases environments.len(),
{
    if environments.len() == 0 {
        Seq::empty()
    } else if environments.len() == 1 {
        environment_text(environments[0])
    } else {
        configuration_text(environments.drop_last()) + seq![newline()] + environment_text(
            environments.last(),
        )
    }
}

impl Configuration {
    /// Writes this environment as the file holds it.
    pub fn to_text(&self) -> (text: String)
        ensures
            text@ == environment_text(self@),
    {
        proof {
            reveal_strlit("[");
            reveal_strlit("]\nendpoint=");
            reveal_strlit("\napi_key=");
        }
        let mut text = String::from_str("[");
        text.append(self.name.as_str());
        text.append("]\nendpoint=");
        text.append(self.endpoint.as_str());
        if let Some(key) = &self.api_key {
            text.append("\napi_key=");
            text.append(key.as_str());
        }
        text
    }
}

impl Configurations {
    /// Writes the environments as a configuration file holds them.
    pub fn to_text(&self) -> (text: String)
        ensures
            text@ == configuration_text(self@),
    {
        let mut text = String::new();
        let mut i: usize = 0;
        while i < self.configurations.len()
            invariant
                i <= self.configurations@.len(),
                text@ == configuration_text(self@.take(i as int)),
            decreases self.configurations.len() - i,
        {
            proof {
                reveal_strlit("\n");
            }
            assert(self@.take(i + 1).drop_last() == self@.take(i as int));
            if i > 0 {
                text.append("\n");
            }
            let one = self.configurations[i].to_text();
            text.append(one.as_str());
            i += 1;
        }
        assert(self@.take(i as int) == self@);
        text
    }
}

/// One line of the file, as read.
enum Token {
    Blank,
    Header(String),
    Endpoint(String),
    ApiKey(String),
    Unknown,
}

impl View for Token {
    type V = Line;

    closed spec fn view(&self) -> Line {
        match self {
            Token::Blank => Line::Blank,
            Token::Header(name) => Line::Header(name@),
            Token::Endpoint(endpoint) => Line::Endpoint(endpoint@),
            Token::ApiKey(key) => Line::ApiKey(key@),
            Token::Unknown => Line::Unknown,
        }
    }
}

/// The characters of `text` from `start` up to `end`, as a string of their
/// own.
fn piece(text: &str, start: usize, end: usize) -> (part: String)
    requires
        start <= end <= text@.len(),
    ensures
        part@ == text@.subrange(start as int, end as int),
{
    String::from_str(text.substring_char(start, end))
}

/// Reads the line of `text` that runs from `start` up to `end`. `chars`
/// holds the characters of `text`.
fn read_line(text: &str, chars: &Vec<char>, start: usize, end: usize) -> (token: Token)
    requires
        chars@ == text@,
        start <= end <= chars@.len(),
    ensures
        token@ == classify(text@.subrange(start as int, end as int)),
{
    let ghost line = text@.subrange(start as int, end as int);
    if start == end {
        return Token::Blank;
    }
    if chars[start] == '[' {
        if end - start >= 3 && chars[end - 1] == ']' {
            assert(line.subrange(1, line.len() - 1) == text@.subrange(start + 1, end - 1));
            return Token::Header(piece(text, start + 1, end - 1));
        }
        return Token::Unknown;
    }
    proof {
        reveal_strlit("endpoint=");
        reveal_strlit("api_key=");
    }
    let endpoint_key = chars_of("endpoint=");
    if starts_with(chars, start, end, &endpoint_key) {
        if end - start > endpoint_key.len() {
            assert(line.skip(endpoint_key@.len() as int) == text@.subrange(
                start + endpoint_key@.len(),
                end as int,
            ));
            return Token::Endpoint(piece(text, start + endpoint_key.len(), end));
        }
        return Token::Unknown;
    }
    let api_key_key = chars_of("api_key=");
    if starts_with(chars, start, end, &api_key_key) {
        assert(line.skip(api_key_key@.len() as int) == text@.subrange(
            start + api_key_key@.len(),
            end as int,
        ));
        return Token::ApiKey(piece(text, start + api_key_key.len(), end));
    }
    Token::Unknown
}

/// A reader that failed on the first lines of a file fails on the file.
pub proof fn lemma_read_lines_fails(lines: Seq<Seq<char>>, count: int)
    requires
        0 <= count <= lines.len(),
        read_lines(lines.take(count)) is None,
    ensures
        read_lines(lines) is None,
    decreases lines.len() - count,
{
    if count < lines.len() {
        assert(lines.take(count + 1).drop_last() == lines.take(count));
        lemma_read_lines_fails(lines, count + 1);
    } else {
        assert(lines.take(count) == lines);
    }
}

/// What a reader's records and open section stand for.
spec fn progress_of(records: Seq<Configuration>, pending: Option<String>) -> Progress {
    Progress { environments: environment_views(records), pending: optional_text(pending) }
}

impl Configurations {
    /// Reads the text of a configuration file. `None` where the text does
    /// not follow the format.
    pub fn from_text(text: &str) -> (read: Option<Configurations>)
        ensures
            match read {
                Some(configurations) => read_text(text@) == Some(configurations@)
                    && configurations.wf(),
                None => read_text(text@) is None,
            },
    {
        proof {
            lemma_read_text_well_formed(text@);
        }
        let chars = chars_of(text);
        let spans = line_spans(&chars);
        let ghost lines = split_lines(text@);
        let mut records: Vec<Configuration> = Vec::new();
        let mut pending: Option<String> = None;
        let mut k: usize = 0;
        assert(environment_views(records@) == Seq::<ConfigurationView>::empty());
        while k < spans.len()
            invariant
                chars@ == text@,
                lines == split_lines(text@),
                spans_mark(chars@, spans@, lines),
                k <= spans@.len(),
                read_lines(lines.take(k as int)) == Some(progress_of(records@, pending)),
            decreases spans.len() - k,
        {
            let (start, end) = spans[k];
            let token = read_line(text, &chars, start, end);
            let ghost before = progress_of(records@, pending);
            proof {
                assert(lines.take(k + 1).drop_last() == lines.take(k as int));
                if accept_line(before, token@) is None {
                    lemma_read_lines_fails(lines, k + 1);
                }
            }
            match token {
                Token::Blank => {},
                Token::Header(name) => {
                    if pending.is_some() {
                        return None;
                    }
                    if position_of(&records, &name).is_some() {
                        return None;
                    }
                    pending = Some(name);
                },
                Token::Endpoint(endpoint) => {
                    match pending {
                        Some(name) => {
                            let ghost earlier = records@;
                            let record = Configuration { name, endpoint, api_key: None };
                            records.push(record);
                            pending = None;
                            assert(environment_views(records@) == environment_views(earlier).push(
                                record@,
                            ));
                        },
                        None => {
                            return None;
                        },
                    }
                },
                Token::ApiKey(key) => {
                    if pending.is_some() || records.len() == 0 {
                        return None;
                    }
                    let ghost earlier = records@;
                    let last = records.pop().unwrap();
                    if last.api_key.is_some() {
                        return None;
                    }
                    let record = Configuration {
                        name: last.name,
                        endpoint: last.endpoint,
                        api_key: Some(key),
                    };
                    records.push(record);
                    assert(environment_views(records@) == environment_views(
                        earlier,
                    ).drop_last().push(record@));
                },
                Token::Unknown => {
                    return None;
                },
            }
            k += 1;
        }
        assert(lines.take(k as int) == lines);
        if pending.is_some() {
            return None;
        }
        Some(Configurations { configurations: records })
    }
}

} // verus!
