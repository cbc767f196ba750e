//! The text shown to a caller: the report of a search and the list of providers.

use crate::model::{
    PerplexicaSearchResponse, Provider, ProviderView, ProvidersResponse, ProvidersView,
    SearchResponseView, SourceView,
};
use crate::text::{decimal, push_decimal};
use vstd::prelude::*;
use vstd::seq_lib::lemma_flatten_concat;

verus! {

/// The entry of one source: its title, and its address indented beneath it.
pub open spec fn source_entry(source: SourceView) -> Seq<char> {
    "- "@ + source.metadata.title + "\n  - "@ + source.metadata.url + "\n"@
}

/// The entries of `sources`, one after another in the order given.
pub open spec fn source_entries(sources: Seq<SourceView>) -> Seq<char> {
    sources.map_values(|s: SourceView| source_entry(s)).flatten()
}

/// What stands under the sources heading: the entries, or one fixed sentence
/// where there is no source.
pub open spec fn sources_section(sources: Seq<SourceView>) -> Seq<char> {
    if sources.len() == 0 {
        "No sources found.\n"@
    } else {
        source_entries(sources)
    }
}

/// What stands above the sources: the answer as it came, under a summary
/// heading, then the sources heading.
pub open spec fn report_head(message: Seq<char>) -> Seq<char> {
    "## Summary\n\n"@ + message + "\n\n## Sources\n\n"@
}

/// The report of a search: the answer under a summary heading, then the sources.
pub open spec fn search_markdown(response: SearchResponseView) -> Seq<char> {
    report_head(response.message) + sources_section(response.sources)
}

/// The entries of the first `n + 1` sources are those of the first `n`,
/// followed by the entry of source `n`.
proof fn lemma_entries_step(sources: Seq<SourceView>, n: int)
    requires
        0 <= n < sources.len(),
    ensures
        source_entries(sources.take(n + 1)) == source_entries(sources.take(n)) + source_entry(
            sources[n],
        ),
{
    let f = |s: SourceView| source_entry(s);
    assert(sources.take(n + 1).map_values(f) == sources.take(n).map_values(f).push(
        source_entry(sources[n]),
    ));
    sources.take(n).map_values(f).lemma_flatten_push(source_entry(sources[n]));
}

/// The entries of all sources are those of the first `n`, followed by those
/// of the rest.
proof fn lemma_entries_split(sources: Seq<SourceView>, n: int)
    requires
        0 <= n <= sources.len(),
    ensures
        source_entries(sources) == source_entries(sources.take(n)) + source_entries(
            sources.skip(n),
        ),
{
    let f = |s: SourceView| source_entry(s);
    assert(sources.map_values(f) == sources.take(n).map_values(f) + sources.skip(n).map_values(f));
    lemma_flatten_concat(sources.take(n).map_values(f), sources.skip(n).map_values(f));
}

/// The report lists every source once, in the order given: the entry of
/// source `i` follows the entries of the `i` sources before it, with
/// nothing in between, and the entries of the sources after it follow in turn.
/// Each entry is the title on a bulleted line, then the address on an
/// indented bulleted line.
pub proof fn lemma_report_lists_sources_in_order(response: SearchResponseView, i: int)
    requires
        0 <= i < response.sources.len(),
    ensures
        search_markdown(response) == report_head(response.message) + source_entries(
            response.sources.take(i),
        ) + source_entry(response.sources[i]) + source_entries(response.sources.skip(i + 1)),
        source_entry(response.sources[i]) == "- "@ + response.sources[i].metadata.title
            + "\n  - "@ + response.sources[i].metadata.url + "\n"@,
{
    let sources = response.sources;
    lemma_entries_split(sources, i + 1);
    lemma_entries_step(sources, i);
    assert(search_markdown(response) =~= report_head(response.message) + source_entries(
        sources.take(i),
    ) + source_entry(sources[i]) + source_entries(sources.skip(i + 1)));
}

/// Without sources the report ends in the one fixed sentence: it never
/// shows a list with nothing in it.
pub proof fn lemma_report_without_sources(response: SearchResponseView)
    requires
        response.sources.len() == 0,
    ensures
        search_markdown(response) == report_head(response.message) + "No sources found.\n"@,
        search_markdown(response) != report_head(response.message) + source_entries(
            response.sources,
        ),
{
    reveal_strlit("No sources found.\n");
    assert(source_entries(response.sources) == Seq::<char>::empty()) by {
        assert(response.sources.map_values(|s: SourceView| source_entry(s)) == Seq::<
            Seq<char>,
        >::empty());
    }
    assert(search_markdown(response).len() == report_head(response.message).len() + 18);
}

/// Renders the report of a search.
pub fn render_search_markdown(response: &PerplexicaSearchResponse) -> (text: String)
    ensures
        text@ == search_markdown(response@),
{
    let mut text = String::new();
    text.append("## Summary\n\n");
    text.append(response.message.as_str());
    text.append("\n\n## Sources\n\n");
    let ghost head = text@;
    let ghost sources = response@.sources;
    assert(head == report_head(response@.message));
    let count = response.sources.len();
    if count == 0 {
        text.append("No sources found.\n");
    } else {
        let mut i: usize = 0;
        assert(sources.take(0).map_values(|s: SourceView| source_entry(s)) == Seq::<
            Seq<char>,
        >::empty());
        assert(text@ == head + source_entries(sources.take(0)));
        while i < count
            invariant
                i <= count,
                count == response.sources.len(),
                sources == response@.sources,
                text@ == head + source_entries(sources.take(i as int)),
            decreases count - i,
        {
            let source = &response.sources[i];
            assert(source@ == sources[i as int]);
            let ghost before = text@;
            text.append("- ");
            text.append(source.metadata.title.as_str());
            text.append("\n  - ");
            text.append(source.metadata.url.as_str());
            text.append("\n");
            proof {
                lemma_entries_step(sources, i as int);
                assert(text@ == before + source_entry(sources[i as int]));
            }
            i = i + 1;
        }
        assert(sources.take(count as int) == sources);
    }
    text
}

/// The line that says how many providers there are.
pub open spec fn providers_heading(count: nat) -> Seq<char> {
    "Found "@ + decimal(count) + " providers available:"@
}

/// The block of one provider: its name, its id, and how many chat models and
/// embedding models it offers.
pub open spec fn provider_block(provider: ProviderView) -> Seq<char> {
    "\n## "@ + provider.name + "\nID: "@ + provider.id + "\nChat Models: "@ + decimal(
        provider.chat_models.len(),
    ) + "\nEmbedding Models: "@ + decimal(provider.embedding_models.len())
}

/// The block that holds the whole list as JSON text.
pub open spec fn json_block(json_text: Seq<char>) -> Seq<char> {
    "\n\n## Complete Response (JSON)\n\n```json\n"@ + json_text + "\n```"@
}

/// The blocks of a list of providers: the heading, one block for each provider
/// in the order given, and the whole list as JSON text.
pub open spec fn providers_blocks(providers: ProvidersView, json_text: Seq<char>) -> Seq<
    Seq<char>,
> {
    seq![providers_heading(providers.providers.len())] + providers.providers.map_values(
        |provider: ProviderView| provider_block(provider),
    ) + seq![json_block(json_text)]
}

/// The blocks of a list of providers: first the heading that counts them,
/// then one block for each provider, in the order of the list, and last the
/// block with the JSON text.
pub proof fn lemma_providers_blocks_shape(providers: ProvidersView, json_text: Seq<char>)
    ensures
        providers_blocks(providers, json_text).len() == providers.providers.len() + 2,
        providers_blocks(providers, json_text)[0] == providers_heading(providers.providers.len()),
        forall|k: int|
            0 <= k < providers.providers.len() ==> #[trigger] providers_blocks(
                providers,
                json_text,
            )[k + 1] == provider_block(providers.providers[k]),
        providers_blocks(providers, json_text).last() == json_block(json_text),
{
}

/// Renders the block of one provider.
pub fn render_provider(provider: &Provider) -> (block: String)
    ensures
        block@ == provider_block(provider@),
{
    let mut block = String::from_str("\n## ");
    block.append(provider.name.as_str());
    block.append("\nID: ");
    block.append(provider.id.as_str());
    block.append("\nChat Models: ");
    push_decimal(&mut block, provider.chat_models.len());
    block.append("\nEmbedding Models: ");
    push_decimal(&mut block, provider.embedding_models.len());
    block
}

/// Renders the blocks of a list of providers. `json_text` is the whole list
/// as JSON text.
pub fn render_providers(providers: &ProvidersResponse, json_text: &str) -> (blocks: Vec<String>)
    ensures
        blocks.deep_view() == providers_blocks(providers@, json_text@),
{
    let count = providers.providers.len();
    let mut heading = String::from_str("Found ");
    push_decimal(&mut heading, count);
    heading.append(" providers available:");
    let mut blocks: Vec<String> = Vec::new();
    blocks.push(heading);
    let mut i: usize = 0;
    while i < count
        invariant
            i <= count,
            count == providers.providers.len(),
            blocks.len() == i + 1,
            blocks[0]@ == providers_heading(count as nat),
            forall|k: int|
                1 <= k <= i ==> #[trigger] blocks[k]@ == provider_block(
                    providers.providers[k - 1]@,
                ),
        decreases count - i,
    {
        blocks.push(render_provider(&providers.providers[i]));
        i = i + 1;
    }
    let mut last = String::from_str("\n\n## Complete Response (JSON)\n\n```json\n");
    last.append(json_text);
    last.append("\n```");
    blocks.push(last);
    proof {
        let expected = providers_blocks(providers@, json_text@);
        assert(expected.len() == count + 2);
        assert forall|k: int| 0 <= k < expected.len() implies blocks.deep_view()[k]
            == expected[k] by {
            if 1 <= k <= count {
                assert(blocks[k]@ == provider_block(providers.providers[k - 1]@));
            }
        }
        assert(blocks.deep_view() =~= expected);
    }
    blocks
}

} // verus!
