//! What the browser shows of the entries: the definitions whose names match what the user has
//! typed, with the matched letters marked, and a preview of the definition that is selected.

use vstd::prelude::*;
use vstd::string::{StrSliceExecFns, StringExecFns};
use crate::function::{Function, FunctionDefinition, FunctionDefinitionView, FunctionView};
use crate::strings::{characters, joined, trim, trimmed};
use crate::text::{piece_views, TextNode, TextNodeView};

verus! {

/// `SkimMatcherV2` of fuzzy_matcher, the matcher of the skim algorithm. The library only hands
/// it on.
#[verifier::external_type_specification]
#[verifier::external_body]
pub struct ExSkimMatcherV2(fuzzy_matcher::skim::SkimMatcherV2);

/// Matches names against what the user has typed, by the skim algorithm in its default
/// setting.
pub struct FuzzyFilter {
    matcher: fuzzy_matcher::skim::SkimMatcherV2,
}

/// Whether `character` is one of the capital letters `A` to `Z`.
pub open spec fn is_ascii_capital(character: char) -> bool {
    0x41 <= character as u32 <= 0x5a
}

/// The code of `character`, with the capital letters `A` to `Z` taken as their small letters.
pub open spec fn lowered(character: char) -> u32 {
    if is_ascii_capital(character) {
        (character as u32 + 0x20) as u32
    } else {
        character as u32
    }
}

/// Whether `text` holds one of the capital letters `A` to `Z`.
pub open spec fn holds_capital(text: Seq<char>) -> bool {
    exists|i: int| 0 <= i < text.len() && is_ascii_capital(#[trigger] text[i])
}

/// Whether a character of a name answers to a typed character: they are the same, or, where
/// the comparison is not `exact`, the same but for the case of the letters `A` to `Z`.
pub open spec fn same_letter(named: char, typed: char, exact: bool) -> bool {
    if exact {
        named == typed
    } else {
        lowered(named) == lowered(typed)
    }
}

/// Whether the characters of `pattern` occur in `choice` in their order, not necessarily side
/// by side.
pub open spec fn occurs_in_order(choice: Seq<char>, pattern: Seq<char>, exact: bool) -> bool
    decreases choice.len(),
{
    if pattern.len() == 0 {
        true
    } else if choice.len() == 0 {
        false
    } else if same_letter(choice[0], pattern[0], exact) {
        occurs_in_order(choice.drop_first(), pattern.drop_first(), exact)
    } else {
        occurs_in_order(choice.drop_first(), pattern, exact)
    }
}

/// Whether a name matches what has been typed: the typed characters occur in the name in
/// their order. Once a capital letter has been typed the characters are compared exactly, and
/// until then without regard to the case of the letters `A` to `Z`. Nothing typed matches
/// every name.
pub open spec fn name_matches(name: Seq<char>, typed: Seq<char>) -> bool {
    occurs_in_order(name, typed, holds_capital(typed))
}

/// Whether `places` are places in a text of `length` characters, each one behind the one
/// before it.
pub open spec fn rising_below(places: Seq<usize>, length: nat) -> bool {
    &&& forall|k: int| 0 <= k < places.len() ==> #[trigger] places[k] < length
    &&& forall|j: int, k: int| 0 <= j < k < places.len() ==> places[j] < places[k]
}

/// `SkimMatcherV2::default` of fuzzy_matcher: a matcher in the default setting. Nothing is
/// claimed of it.
#[verifier::external_body]
fn skim_matcher() -> fuzzy_matcher::skim::SkimMatcherV2 {
    fuzzy_matcher::skim::SkimMatcherV2::default()
}

/// `FuzzyMatcher::fuzzy_indices` of fuzzy_matcher on a `SkimMatcherV2` in the default setting,
/// without the score. There is a result exactly if the name matches, as [`name_matches`] says
/// it. The places of a result are places of characters of `choice`, in rising order. Which
/// places they are is the matcher's to say: it scores with what it keeps from earlier calls,
/// so the same two strings need not give the same places twice.
#[verifier::external_body]
fn fuzzy_indices(filter: &FuzzyFilter, choice: &str, pattern: &str) -> (found: Option<Vec<usize>>)
    ensures
        found is Some <==> name_matches(choice@, pattern@),
        found matches Some(places) ==> rising_below(places@, choice@.len()),
{
    let found = fuzzy_matcher::FuzzyMatcher::fuzzy_indices(&filter.matcher, choice, pattern);
    found.map(|scored| scored.1)
}

/// One letter of a name in the list, and whether it is one that the typed text matched.
#[derive(Debug, Clone, Copy, PartialEq, Eq, Structural)]
pub struct Letter {
    pub character: char,
    pub matched: bool,
}

/// One line of the list: a definition whose name matches.
#[derive(Debug, Clone, PartialEq, Eq)]
pub struct SearchEntry {
    /// The place of the definition among the entries that were searched, counted from zero.
    pub position: usize,
    /// The letters of its name.
    pub letters: Vec<Letter>,
}

/// The mathematical value of a [`SearchEntry`].
pub struct SearchEntryView {
    pub position: int,
    pub letters: Seq<Letter>,
}

impl View for SearchEntry {
    type V = SearchEntryView;

    open spec fn view(&self) -> SearchEntryView {
        SearchEntryView { position: self.position as int, letters: self.letters@ }
    }
}

/// The mathematical value of every line of `entries`, in order.
pub open spec fn entry_views(entries: Seq<SearchEntry>) -> Seq<SearchEntryView> {
    Seq::new(entries.len(), |i: int| entries[i]@)
}

/// The mathematical value of every entry of `functions`, in order.
pub open spec fn function_views(functions: Seq<Function>) -> Seq<FunctionView> {
    Seq::new(functions.len(), |i: int| functions[i]@)
}

/// Whether `place` is one of `places`.
pub open spec fn is_among(places: Seq<usize>, place: int) -> bool {
    exists|k: int| 0 <= k < places.len() && places[k] == place
}

/// The letter `character`, marked or not.
pub open spec fn letter(character: char, matched: bool) -> Letter {
    Letter { character, matched }
}

/// The letters of `name`, each marked exactly if its place is one of `places`.
pub open spec fn marked(name: Seq<char>, places: Seq<usize>) -> Seq<Letter> {
    Seq::new(name.len(), |i: int| letter(name[i], is_among(places, i)))
}

/// The places, among the first `upto` of `functions`, of the definitions whose names match
/// the typed text `query`, in order. An alias is at none of them.
pub open spec fn listed(functions: Seq<FunctionView>, query: Seq<char>, upto: int) -> Seq<int>
    decreases upto,
{
    if upto <= 0 || upto > functions.len() {
        Seq::empty()
    } else {
        let before = listed(functions, query, upto - 1);
        match functions[upto - 1] {
            FunctionView::Alias(_) => before,
            FunctionView::Definition(definition) => if name_matches(definition.name, query) {
                before.push(upto - 1)
            } else {
                before
            },
        }
    }
}

/// The place that each line of `entries` names, in order.
pub open spec fn positions(entries: Seq<SearchEntryView>) -> Seq<int> {
    Seq::new(entries.len(), |k: int| entries[k].position)
}

/// Whether `entry` is a line for one of `functions`: it names the place of a definition, and
/// its letters are the letters of that definition's name, marked at some places of the name
/// that rise.
pub open spec fn is_line(entry: SearchEntryView, functions: Seq<FunctionView>) -> bool {
    &&& 0 <= entry.position < functions.len()
    &&& functions[entry.position] matches FunctionView::Definition(definition)
    &&& exists|places: Seq<usize>|
        rising_below(places, definition.name.len()) && entry.letters == #[trigger] marked(
            definition.name,
            places,
        )
}

/// Whether `place` is one of `places`.
fn holds(places: &Vec<usize>, place: usize) -> (found: bool)
    ensures
        found == is_among(places@, place as int),
{
    let mut k: usize = 0;
    while k < places.len()
        invariant
            k <= places.len(),
            forall|j: int| 0 <= j < k ==> places[j] != place,
        decreases places.len() - k,
    {
        if places[k] == place {
            return true;
        }
        k += 1;
    }
    false
}

/// The letters of `name`, each marked exactly if its place is one of `places`.
pub fn mark(name: &str, places: &Vec<usize>) -> (letters: Vec<Letter>)
    ensures
        letters@ == marked(name@, places@),
{
    let list = characters(name);
    let mut letters: Vec<Letter> = Vec::new();
    let mut i: usize = 0;
    while i < list.len()
        invariant
            i <= list.len(),
            list@ == name@,
            letters@ == marked(name@, places@).take(i as int),
        decreases list.len() - i,
    {
        let next = Letter { character: list[i], matched: holds(places, i) };
        assert(next == letter(name@[i as int], is_among(places@, i as int)));
        letters.push(next);
        assert(letters@ =~= marked(name@, places@).take(i + 1));
        i += 1;
    }
    assert(letters@ =~= marked(name@, places@));
    letters
}

/// What the first `upto` pieces of `description` show, in order: the text of each piece
/// without the white space around it. A placeholder shows nothing and is left out.
pub open spec fn shown_texts(description: Seq<TextNodeView>, upto: int) -> Seq<Seq<char>>
    decreases upto,
{
    if upto <= 0 || upto > description.len() {
        Seq::empty()
    } else {
        let before = shown_texts(description, upto - 1);
        if description[upto - 1] is Placeholder {
            before
        } else {
            before.push(trimmed(description[upto - 1].text()))
        }
    }
}

/// The description on one line: what its pieces show, with one space between each two of
/// them. A placeholder adds nothing to the line, neither text nor a space.
pub open spec fn flattened(description: Seq<TextNodeView>) -> Seq<char> {
    joined(shown_texts(description, description.len() as int), " "@)
}

/// What the first pieces show does not depend on the pieces after them.
proof fn lemma_shown_prefix(first: Seq<TextNodeView>, second: Seq<TextNodeView>, upto: int)
    requires
        0 <= upto <= first.len(),
        upto <= second.len(),
        forall|k: int| 0 <= k < upto ==> first[k] == second[k],
    ensures
        shown_texts(first, upto) == shown_texts(second, upto),
    decreases upto,
{
    if upto > 0 {
        lemma_shown_prefix(first, second, upto - 1);
    }
}

/// What two runs of pieces show, one after the other, is what the first shows and then what
/// the second shows.
proof fn lemma_shown_append(front: Seq<TextNodeView>, back: Seq<TextNodeView>, upto: int)
    requires
        0 <= upto <= back.len(),
    ensures
        shown_texts(front + back, front.len() + upto) == shown_texts(front, front.len() as int)
            + shown_texts(back, upto),
    decreases upto,
{
    if upto == 0 {
        lemma_shown_prefix(front + back, front, front.len() as int);
        assert(shown_texts(front, front.len() as int) + shown_texts(back, 0) =~= shown_texts(
            front,
            front.len() as int,
        ));
    } else {
        lemma_shown_append(front, back, upto - 1);
        assert((front + back)[front.len() + upto - 1] == back[upto - 1]);
        assert(shown_texts(front + back, front.len() + upto) =~= shown_texts(
            front,
            front.len() as int,
        ) + shown_texts(back, upto));
    }
}

/// A placeholder adds nothing to the flattened description: a description with a placeholder
/// anywhere in it is flattened to the same line as the description without it.
pub proof fn placeholder_adds_nothing(before: Seq<TextNodeView>, after: Seq<TextNodeView>)
    ensures
        flattened(before + seq![TextNodeView::Placeholder] + after) == flattened(before + after),
{
    let marker = seq![TextNodeView::Placeholder];
    lemma_shown_append(before, marker, 1);
    assert(marker[0] is Placeholder);
    assert(shown_texts(marker, 0) =~= Seq::empty());
    assert(shown_texts(marker, 1) =~= Seq::empty());
    assert(shown_texts(before + marker, (before.len() + 1) as int) =~= shown_texts(
        before,
        before.len() as int,
    ));
    lemma_shown_append(before + marker, after, after.len() as int);
    lemma_shown_append(before, after, after.len() as int);
}

/// The preview of a definition: its signature, an empty line, and its description on one line.
pub open spec fn preview_of(definition: FunctionDefinitionView) -> Seq<char> {
    definition.text() + "\n\n"@ + flattened(definition.description)
}

/// The definition that is selected: the one of the line at `selection`, if there is such a
/// line and it names a definition among `functions`.
pub open spec fn selected_among(
    functions: Seq<FunctionView>,
    entries: Seq<SearchEntryView>,
    selection: Option<usize>,
) -> Option<FunctionDefinitionView> {
    match selection {
        Some(line) if line < entries.len() && 0 <= entries[line as int].position < functions.len()
            => match functions[entries[line as int].position] {
            FunctionView::Definition(definition) => Some(definition),
            FunctionView::Alias(_) => None,
        },
        _ => None,
    }
}

/// What the preview pane shows: the preview of the selected definition, or a note that there
/// is none.
pub open spec fn pane_of(
    functions: Seq<FunctionView>,
    entries: Seq<SearchEntryView>,
    selection: Option<usize>,
) -> Seq<char> {
    match selected_among(functions, entries, selection) {
        Some(definition) => preview_of(definition),
        None => "No preview available"@,
    }
}

/// The description of a definition on one line. See [`flattened`].
pub fn flatten(description: &Vec<TextNode>) -> (line: String)
    ensures
        line@ == flattened(piece_views(description@)),
{
    let mut line = String::new();
    let mut any = false;
    let mut i: usize = 0;
    while i < description.len()
        invariant
            i <= description.len(),
            any == (shown_texts(piece_views(description@), i as int).len() > 0),
            line@ == joined(shown_texts(piece_views(description@), i as int), " "@),
        decreases description.len() - i,
    {
        let ghost before = shown_texts(piece_views(description@), i as int);
        match &description[i] {
            TextNode::Placeholder => {},
            piece => {
                if any {
                    line.append(" ");
                }
                let text = piece.to_string();
                line.append(trim(text.as_str()));
                any = true;
                proof {
                    let shown = trimmed(piece@.text());
                    assert(before.push(shown).drop_last() =~= before);
                    assert(before.push(shown).last() == shown);
                }
            },
        }
        i += 1;
    }
    line
}

/// The preview of a definition. See [`preview_of`].
pub fn preview(definition: &FunctionDefinition) -> (text: String)
    ensures
        text@ == preview_of(definition@),
{
    let mut text = definition.to_string();
    text.append("\n\n");
    let line = flatten(&definition.description);
    text.append(line.as_str());
    text
}

/// The definition that is selected. See [`selected_among`].
pub fn selected<'a>(
    functions: &'a Vec<Function>,
    entries: &Vec<SearchEntry>,
    selection: Option<usize>,
) -> (definition: Option<&'a FunctionDefinition>)
    ensures
        match definition {
            Some(found) => selected_among(
                function_views(functions@),
                entry_views(entries@),
                selection,
            ) == Some(found@),
            None => selected_among(function_views(functions@), entry_views(entries@), selection)
                is None,
        },
{
    let line = match selection {
        Some(line) => line,
        None => {
            return None;
        },
    };
    if line >= entries.len() {
        return None;
    }
    let position = entries[line].position;
    if position >= functions.len() {
        return None;
    }
    match &functions[position] {
        Function::Definition(definition) => Some(definition),
        Function::Alias(_) => None,
    }
}

/// What the preview pane shows. See [`pane_of`].
pub fn pane(
    functions: &Vec<Function>,
    entries: &Vec<SearchEntry>,
    selection: Option<usize>,
) -> (text: String)
    ensures
        text@ == pane_of(function_views(functions@), entry_views(entries@), selection),
{
    match selected(functions, entries, selection) {
        Some(definition) => preview(definition),
        None => "No preview available".to_owned(),
    }
}

impl FuzzyFilter {
    /// A filter in the default setting.
    pub fn new() -> FuzzyFilter {
        FuzzyFilter { matcher: skim_matcher() }
    }

    /// The lines of the list for the typed text `query`: one line for each definition whose
    /// name matches, in the order of `functions`. See [`listed`] and [`is_line`]. Which
    /// letters of a name are marked is up to the matcher.
    pub fn search(&self, functions: &Vec<Function>, query: &str) -> (entries: Vec<SearchEntry>)
        ensures
            positions(entry_views(entries@)) == listed(
                function_views(functions@),
                query@,
                functions.len() as int,
            ),
            forall|k: int|
                0 <= k < entries.len() ==> is_line(
                    #[trigger] entries@[k]@,
                    function_views(functions@),
                ),
    {
        let mut entries: Vec<SearchEntry> = Vec::new();
        let mut i: usize = 0;
        assert(positions(entry_views(entries@)) =~= Seq::empty());
        while i < functions.len()
            invariant
                i <= functions.len(),
                positions(entry_views(entries@)) == listed(
                    function_views(functions@),
                    query@,
                    i as int,
                ),
                forall|k: int|
                    0 <= k < entries.len() ==> is_line(
                        #[trigger] entries@[k]@,
                        function_views(functions@),
                    ),
            decreases functions.len() - i,
        {
            match &functions[i] {
                Function::Alias(_) => {},
                Function::Definition(definition) => {
                    match fuzzy_indices(self, definition.name.as_str(), query) {
                        None => {},
                        Some(places) => {
                            let entry = SearchEntry {
                                position: i,
                                letters: mark(definition.name.as_str(), &places),
                            };
                            proof {
                                assert(entry@.letters == marked(definition@.name, places@));
                                assert(is_line(entry@, function_views(functions@)));
                                assert(positions(entry_views(entries@.push(entry)))
                                    =~= positions(entry_views(entries@)).push(i as int));
                            }
                            entries.push(entry);
                        },
                    }
                },
            }
            i += 1;
        }
        entries
    }
}

} // verus!
