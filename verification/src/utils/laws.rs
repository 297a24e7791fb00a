//! What holds of the configuration file's format.

use vstd::prelude::*;
use crate::utils::config::{has_name, valid_environment, well_formed, ConfigurationView};
use crate::utils::format::{
    accept_line, api_key_key, classify, configuration_lines, configuration_text, endpoint_key,
    environment_lines, environment_text, read_lines, read_text, Line, Progress,
};
use crate::utils::text::{
    join_lines, lemma_split_join, lemma_split_lines_single, newline, single_line, split_lines,
};

verus! {

/// Joining two runs of lines, neither of them empty, joins each and puts a
/// line feed between them.
pub proof fn lemma_join_lines_concat(front: Seq<Seq<char>>, back: Seq<Seq<char>>)
    requires
        front.len() >= 1,
        back.len() >= 1,
    ensures
        join_lines(front + back) == join_lines(front) + seq![newline()] + join_lines(back),
    decreases back.len(),
{
    if back.len() == 1 {
        assert((front + back).drop_last() == front);
    } else {
        lemma_join_lines_concat(front, back.drop_last());
        assert((front + back).drop_last() == front + back.drop_last());
    }
}

/// An environment's text is its lines, joined.
pub proof fn lemma_environment_text_lines(environment: ConfigurationView)
    ensures
        environment_text(environment) == join_lines(environment_lines(environment)),
{
    let header = seq!['['] + environment.name + seq![']'];
    let endpoint = endpoint_key() + environment.endpoint;
    let two = seq![header, endpoint];
    assert(two.drop_last() == seq![header]);
    assert(join_lines(seq![header]) == header);
    assert(join_lines(two) == header + seq![newline()] + endpoint);
    if let Some(key) = environment.api_key {
        assert(seq![header, endpoint, api_key_key() + key].drop_last() == two);
    }
}

/// Every environment takes at least two lines.
pub proof fn lemma_configuration_lines_count(environments: Seq<ConfigurationView>)
    ensures
        configuration_lines(environments).len() >= 2 * environments.len(),
    decreases environments.len(),
{
    if environments.len() > 0 {
        lemma_configuration_lines_count(environments.drop_last());
    }
}

/// A file's text is its lines, joined.
pub proof fn lemma_configuration_text_lines(environments: Seq<ConfigurationView>)
    ensures
        configuration_text(environments) == join_lines(configuration_lines(environments)),
    decreases environments.len(),
{
    if environments.len() > 0 {
        let front = environments.drop_last();
        lemma_configuration_text_lines(front);
        lemma_environment_text_lines(environments.last());
        if environments.len() > 1 {
            lemma_configuration_lines_count(front);
            lemma_join_lines_concat(
                configuration_lines(front),
                environment_lines(environments.last()),
            );
        }
    }
}

/// The lines of valid environments hold no line feed.
pub proof fn lemma_configuration_lines_single(environments: Seq<ConfigurationView>)
    requires
        forall|i: int|
            0 <= i < environments.len() ==> valid_environment(#[trigger] environments[i]),
    ensures
        forall|k: int|
            0 <= k < configuration_lines(environments).len() ==> single_line(
                #[trigger] configuration_lines(environments)[k],
            ),
    decreases environments.len(),
{
    if environments.len() > 0 {
        let front = environments.drop_last();
        assert forall|i: int| 0 <= i < front.len() implies valid_environment(
            #[trigger] front[i],
        ) by {}
        lemma_configuration_lines_single(front);
        let own = environment_lines(environments.last());
        assert forall|k: int| 0 <= k < own.len() implies single_line(#[trigger] own[k]) by {}
        let before = configuration_lines(front);
        let all = configuration_lines(environments);
        assert forall|k: int| 0 <= k < all.len() implies single_line(#[trigger] all[k]) by {
            if k < before.len() {
                assert(all[k] == before[k]);
            } else {
                assert(all[k] == own[k - before.len()]);
            }
        }
    }
}

/// Reading the lines of well-formed environments gives the environments.
pub proof fn lemma_read_configuration_lines(environments: Seq<ConfigurationView>)
    requires
        well_formed(environments),
    ensures
        read_lines(configuration_lines(environments)) == Some(
            Progress { environments, pending: None },
        ),
    decreases environments.len(),
{
    if environments.len() == 0 {
        assert(environments == Seq::<ConfigurationView>::empty());
    } else {
        let front = environments.drop_last();
        let last = environments.last();
        assert(well_formed(front)) by {
            assert forall|i: int| 0 <= i < front.len() implies valid_environment(
                #[trigger] front[i],
            ) by {}
        }
        lemma_read_configuration_lines(front);
        assert(!has_name(front, last.name));
        // The header opens the section.
        let header = seq!['['] + last.name + seq![']'];
        assert(classify(header) == Line::Header(last.name)) by {
            assert(header.subrange(1, header.len() - 1) == last.name);
        }
        let one = configuration_lines(front).push(header);
        assert(one.drop_last() == configuration_lines(front));
        assert(read_lines(one) == Some(Progress { environments: front, pending: Some(last.name) }));
        // The endpoint closes it.
        let endpoint = endpoint_key() + last.endpoint;
        assert(classify(endpoint) == Line::Endpoint(last.endpoint)) by {
            assert(endpoint.skip(endpoint_key().len() as int) == last.endpoint);
        }
        let two = one.push(endpoint);
        assert(two.drop_last() == one);
        let closed = ConfigurationView { name: last.name, endpoint: last.endpoint, api_key: None };
        assert(read_lines(two) == Some(Progress { environments: front.push(closed), pending: None }));
        // The key, where there is one, is added to it.
        match last.api_key {
            Some(key) => {
                let line = api_key_key() + key;
                assert(classify(line) == Line::ApiKey(key)) by {
                    assert(line.skip(api_key_key().len() as int) == key);
                }
                let three = two.push(line);
                assert(three.drop_last() == two);
                assert(configuration_lines(environments) == three);
                assert(front.push(closed).drop_last() == front);
                assert(front.push(last) == environments);
            },
            None => {
                assert(configuration_lines(environments) == two);
                assert(front.push(closed) == environments);
            },
        }
    }
}

/// Writing well-formed environments and reading the text back gives the
/// same environments.
pub proof fn lemma_write_then_read(environments: Seq<ConfigurationView>)
    requires
        well_formed(environments),
    ensures
        read_text(configuration_text(environments)) == Some(environments),
{
    if environments.len() == 0 {
        assert(split_lines(Seq::empty()).drop_last() == Seq::<Seq<char>>::empty());
    } else {
        lemma_configuration_text_lines(environments);
        lemma_configuration_lines_count(environments);
        lemma_configuration_lines_single(environments);
        lemma_split_join(configuration_lines(environments));
        lemma_read_configuration_lines(environments);
    }
}

/// What holds of a reader's progress on lines without a line feed: the
/// environments read are well formed, and the name of an open section is
/// fit for an environment and not yet taken.
pub open spec fn sound_progress(progress: Progress) -> bool {
    &&& well_formed(progress.environments)
    &&& progress.pending matches Some(name) ==> {
        &&& name.len() > 0
        &&& single_line(name)
        &&& !has_name(progress.environments, name)
    }
}

/// Whatever a reader accepts, its progress is sound.
pub proof fn lemma_read_lines_sound(lines: Seq<Seq<char>>)
    requires
        forall|k: int| 0 <= k < lines.len() ==> single_line(#[trigger] lines[k]),
    ensures
        read_lines(lines) matches Some(progress) ==> sound_progress(progress),
    decreases lines.len(),
{
    if lines.len() > 0 {
        let front = lines.drop_last();
        assert forall|k: int| 0 <= k < front.len() implies single_line(#[trigger] front[k]) by {}
        lemma_read_lines_sound(front);
        if let Some(before) = read_lines(front) {
            if let Some(after) = accept_line(before, classify(lines.last())) {
                assert(sound_progress(after)) by {
                    lemma_accept_line_sound(before, lines.last());
                }
            }
        }
    }
}

/// A line that a reader accepts leaves sound progress sound.
pub proof fn lemma_accept_line_sound(before: Progress, line: Seq<char>)
    requires
        sound_progress(before),
        single_line(line),
    ensures
        accept_line(before, classify(line)) matches Some(after) ==> sound_progress(after),
{
    if let Some(after) = accept_line(before, classify(line)) {
        let read = after.environments;
        match classify(line) {
            Line::Header(name) => {
                assert(single_line(name));
            },
            Line::Endpoint(endpoint) => {
                assert(single_line(endpoint));
                assert forall|i: int, j: int| 0 <= i < j < read.len() implies (
                #[trigger] read[i]).name != (#[trigger] read[j]).name by {}
                assert forall|i: int| 0 <= i < read.len() implies valid_environment(
                    #[trigger] read[i],
                ) by {}
            },
            Line::ApiKey(key) => {
                assert(single_line(key));
                assert forall|i: int, j: int| 0 <= i < j < read.len() implies (
                #[trigger] read[i]).name != (#[trigger] read[j]).name by {}
                assert forall|i: int| 0 <= i < read.len() implies valid_environment(
                    #[trigger] read[i],
                ) by {}
            },
            _ => {},
        }
    }
}

/// Whatever is read from a text is well formed: every environment has a
/// name and an endpoint of at least one character, and no two share a name.
pub proof fn lemma_read_text_well_formed(text: Seq<char>)
    ensures
        read_text(text) matches Some(environments) ==> well_formed(environments),
{
    lemma_split_lines_single(text);
    lemma_read_lines_sound(split_lines(text));
}

/// Reading is settled by one round of writing: the environments read from
/// any text, written and read again, are the same environments.
pub proof fn lemma_read_write_read(text: Seq<char>)
    ensures
        read_text(text) matches Some(environments) ==> read_text(configuration_text(environments))
            == Some(environments),
{
    lemma_read_text_well_formed(text);
    if let Some(environments) = read_text(text) {
        lemma_write_then_read(environments);
    }
}

/// The lines of `lines` that are not empty, in order.
pub open spec fn filled_lines(lines: Seq<Seq<char>>) -> Seq<Seq<char>>
    decreases lines.len(),
{
    if lines.len() == 0 {
        Seq::empty()
    } else if lines.last().len() == 0 {
        filled_lines(lines.drop_last())
    } else {
        filled_lines(lines.drop_last()).push(lines.last())
    }
}

/// Empty lines make no difference to a reader.
pub proof fn lemma_empty_lines_are_skipped(lines: Seq<Seq<char>>)
    ensures
        read_lines(lines) == read_lines(filled_lines(lines)),
    decreases lines.len(),
{
    if lines.len() > 0 {
        lemma_empty_lines_are_skipped(lines.drop_last());
        if lines.last().len() > 0 {
            let filled = filled_lines(lines.drop_last()).push(lines.last());
            assert(filled.drop_last() == filled_lines(lines.drop_last()));
        }
    }
}

/// The lines that a reader's progress stands for: those of the
/// environments read, and the header of an open section.
pub open spec fn progress_lines(progress: Progress) -> Seq<Seq<char>> {
    match progress.pending {
        Some(name) => configuration_lines(progress.environments).push(
            seq!['['] + name + seq![']'],
        ),
        None => configuration_lines(progress.environments),
    }
}

/// A reader's progress stands for exactly the lines it was given, the empty
/// ones left out.
pub proof fn lemma_progress_keeps_lines(lines: Seq<Seq<char>>)
    ensures
        read_lines(lines) matches Some(progress) ==> filled_lines(lines) == progress_lines(
            progress,
        ),
    decreases lines.len(),
{
    if lines.len() > 0 {
        let line = lines.last();
        lemma_progress_keeps_lines(lines.drop_last());
        if let Some(before) = read_lines(lines.drop_last()) {
            if let Some(after) = accept_line(before, classify(line)) {
                let kept = before.environments;
                match classify(line) {
                    Line::Header(name) => {
                        assert(line == seq!['['] + name + seq![']']);
                    },
                    Line::Endpoint(endpoint) => {
                        assert(line == endpoint_key() + endpoint);
                        assert(after.environments.drop_last() == kept);
                        assert(progress_lines(before).push(line) == configuration_lines(kept)
                            + environment_lines(after.environments.last()));
                    },
                    Line::ApiKey(key) => {
                        assert(line == api_key_key() + key);
                        assert(after.environments.drop_last() == kept.drop_last());
                        assert(progress_lines(before).push(line) == configuration_lines(
                            kept.drop_last(),
                        ) + environment_lines(after.environments.last()));
                    },
                    _ => {},
                }
            }
        }
    }
}

/// What a text is read as, said in one sentence: the text is read as
/// `environments` exactly if these are well formed and the text's lines, the
/// empty ones left out, are the lines that describe them.
pub proof fn lemma_read_text_is_exact(text: Seq<char>, environments: Seq<ConfigurationView>)
    ensures
        read_text(text) == Some(environments) <==> well_formed(environments) && filled_lines(
            split_lines(text),
        ) == configuration_lines(environments),
{
    let lines = split_lines(text);
    lemma_read_text_well_formed(text);
    lemma_progress_keeps_lines(lines);
    lemma_empty_lines_are_skipped(lines);
    if well_formed(environments) {
        lemma_read_configuration_lines(environments);
    }
}

} // verus!
