use fuzzy_matcher::FuzzyMatcher;
use php_docbook::browser::{flatten, mark, pane, preview, selected, FuzzyFilter, Letter, SearchEntry};
use php_docbook::function::{Function, FunctionDefinition, Parameter};
use php_docbook::text::TextNode;
use php_docbook::type_hint::TypeHint;

fn definition(name: &str) -> FunctionDefinition {
    FunctionDefinition {
        name: name.to_string(),
        short_description: String::new(),
        return_type: TypeHint::Regular("int".to_string()),
        arguments: vec![],
        description: vec![],
    }
}

fn functions() -> Vec<Function> {
    vec![
        Function::Definition(definition("array_key_exists")),
        Function::Alias("Alias of array_key_exists".to_string()),
        Function::Definition(definition("count")),
        Function::Definition(definition("array_keys")),
        Function::Definition(definition("strlen")),
    ]
}

fn letters(name: &str, places: &[usize]) -> Vec<Letter> {
    name.chars()
        .enumerate()
        .map(|(place, character)| Letter { character, matched: places.contains(&place) })
        .collect()
}

#[test]
fn letters_are_marked_at_the_given_places() {
    assert_eq!(
        mark("count", &vec![0, 3]),
        vec![
            Letter { character: 'c', matched: true },
            Letter { character: 'o', matched: false },
            Letter { character: 'u', matched: false },
            Letter { character: 'n', matched: true },
            Letter { character: 't', matched: false },
        ]
    );
    assert_eq!(mark("", &vec![0]), vec![]);
    assert_eq!(mark("ab", &vec![]), letters("ab", &[]));
    assert_eq!(mark("ab", &vec![1, 1, 7]), letters("ab", &[1]));
}

#[test]
fn places_count_characters_not_bytes() {
    assert_eq!(
        mark("\u{e9}t\u{e9}", &vec![2]),
        vec![
            Letter { character: '\u{e9}', matched: false },
            Letter { character: 't', matched: false },
            Letter { character: '\u{e9}', matched: true },
        ]
    );
}

#[test]
fn search_lists_the_matching_definitions_in_order() {
    let filter = FuzzyFilter::new();
    let entries = filter.search(&functions(), "arrk");
    let matcher = fuzzy_matcher::skim::SkimMatcherV2::default();
    let (_, first) = matcher.fuzzy_indices("array_key_exists", "arrk").unwrap();
    let (_, second) = matcher.fuzzy_indices("array_keys", "arrk").unwrap();
    assert_eq!(
        entries,
        vec![
            SearchEntry { position: 0, letters: letters("array_key_exists", &first) },
            SearchEntry { position: 3, letters: letters("array_keys", &second) },
        ]
    );
    let marked: String = entries[0]
        .letters
        .iter()
        .filter(|letter| letter.matched)
        .map(|letter| letter.character)
        .collect();
    assert_eq!(marked, "arrk");
}

#[test]
fn search_with_nothing_typed_lists_every_definition() {
    let filter = FuzzyFilter::new();
    let entries = filter.search(&functions(), "");
    assert_eq!(
        entries.iter().map(|entry| entry.position).collect::<Vec<_>>(),
        vec![0, 2, 3, 4]
    );
    assert!(entries.iter().all(|entry| entry.letters.iter().all(|letter| !letter.matched)));
}

#[test]
fn search_without_a_match_lists_nothing() {
    let filter = FuzzyFilter::new();
    assert_eq!(filter.search(&functions(), "zzz"), vec![]);
    assert_eq!(filter.search(&vec![], "a"), vec![]);
    assert_eq!(filter.search(&vec![Function::Alias("count".to_string())], "count"), vec![]);
}

#[test]
fn search_goes_by_case_only_when_capitals_are_typed() {
    let filter = FuzzyFilter::new();
    let list = vec![Function::Definition(definition("strlen"))];
    assert_eq!(filter.search(&list, "str").len(), 1);
    assert_eq!(filter.search(&list, "STR").len(), 0);
}

#[test]
fn selection_picks_the_definition_of_its_line() {
    let list = functions();
    let entries = FuzzyFilter::new().search(&list, "arr");
    assert_eq!(selected(&list, &entries, Some(1)), Some(&definition("array_keys")));
    assert_eq!(selected(&list, &entries, Some(0)), Some(&definition("array_key_exists")));
    assert_eq!(selected(&list, &entries, Some(2)), None);
    assert_eq!(selected(&list, &entries, None), None);
}

#[test]
fn selection_of_a_line_that_names_no_definition_is_nothing() {
    let list = functions();
    let alias = vec![SearchEntry { position: 1, letters: vec![] }];
    assert_eq!(selected(&list, &alias, Some(0)), None);
    let outside = vec![SearchEntry { position: 9, letters: vec![] }];
    assert_eq!(selected(&list, &outside, Some(0)), None);
}

#[test]
fn description_is_flattened_to_one_line() {
    let description = vec![
        TextNode::Text("\n   ".to_string()),
        TextNode::Function("count".to_string()),
        TextNode::Text(" returns \n the number of ".to_string()),
        TextNode::Placeholder,
        TextNode::Type(TypeHint::Regular("int".to_string())),
        TextNode::Text(".\n  ".to_string()),
    ];
    assert_eq!(flatten(&description), " count returns \n the number of int .");
    assert_eq!(flatten(&vec![]), "");
    assert_eq!(flatten(&vec![TextNode::Text("  one  ".to_string())]), "one");
}

#[test]
fn placeholder_adds_nothing_to_the_flattened_description() {
    let text = |value: &str| TextNode::Text(value.to_string());
    assert_eq!(flatten(&vec![text("a"), TextNode::Placeholder, text("b")]), "a b");
    assert_eq!(flatten(&vec![text("a"), text("b")]), "a b");
    assert_eq!(flatten(&vec![TextNode::Placeholder, text("a"), TextNode::Placeholder]), "a");
    assert_eq!(flatten(&vec![TextNode::Placeholder]), "");
    assert_eq!(flatten(&vec![TextNode::Placeholder, TextNode::Placeholder]), "");
    assert_eq!(flatten(&vec![text("a"), text(" "), text("b")]), "a  b");
    let mut function = definition("f");
    function.description = vec![text("before"), TextNode::Placeholder, text("after")];
    assert_eq!(preview(&function), "f(): int;\n\nbefore after");
}

#[test]
fn typed_characters_must_occur_in_the_name_in_order() {
    let filter = FuzzyFilter::new();
    let list = vec![Function::Definition(definition("array_key_exists"))];
    for typed in ["", "a", "array", "ake", "aks", "rkx", "array_key_exists", "s", "__"] {
        assert_eq!(filter.search(&list, typed).len(), 1, "for {typed:?}");
    }
    for typed in ["z", "yarra", "ka", "array_key_existss", "sa", "a-k", " "] {
        assert_eq!(filter.search(&list, typed).len(), 0, "for {typed:?}");
    }
}

#[test]
fn case_counts_once_a_capital_is_typed() {
    let filter = FuzzyFilter::new();
    let list = vec![Function::Definition(definition("DateTime_getLastErrors"))];
    for typed in ["datetime", "dle", "DTLE", "DateTime", "ateTime", "gLE"] {
        assert_eq!(filter.search(&list, typed).len(), 1, "for {typed:?}");
    }
    for typed in ["Datetime", "dateTime", "dATE", "DateTimeG", "E_", "\u{e9}"] {
        assert_eq!(filter.search(&list, typed).len(), 0, "for {typed:?}");
    }
}

#[test]
fn marked_places_rise_within_the_name() {
    let filter = FuzzyFilter::new();
    let list = functions();
    for typed in ["a", "ar", "aey", "t", "ee", "ss", "array_keys", "cnt"] {
        for _ in 0..3 {
            for entry in filter.search(&list, typed) {
                let name = match &list[entry.position] {
                    Function::Definition(definition) => definition.name.clone(),
                    Function::Alias(text) => panic!("an alias: {text}"),
                };
                let shown: String = entry.letters.iter().map(|letter| letter.character).collect();
                assert_eq!(shown, name);
                let marked = entry.letters.iter().filter(|letter| letter.matched).count();
                assert!(marked <= typed.chars().count());
            }
        }
    }
}

#[test]
fn flattening_agrees_with_trimming_and_joining() {
    let description = vec![
        TextNode::Text("\u{a0}a\u{3000}".to_string()),
        TextNode::BoldText("\tb\r\n".to_string()),
        TextNode::Text(String::new()),
        TextNode::Text("\u{2028}".to_string()),
        TextNode::Note("c c".to_string()),
    ];
    let expected = description
        .iter()
        .map(|piece| piece.to_string())
        .map(|text| text.trim().to_string())
        .collect::<Vec<_>>()
        .join(" ");
    assert_eq!(flatten(&description), expected);
    assert_eq!(expected, "a b   c c");
}

#[test]
fn preview_is_the_signature_and_the_description() {
    let mut function = definition("count");
    function.arguments = vec![Parameter {
        name: "value".to_string(),
        type_hint: TypeHint::Regular("Countable|array".to_string()),
        repeat: false,
        default_value: None,
        attributes: vec![],
    }];
    function.description = vec![
        TextNode::Text(" Counts all elements in an ".to_string()),
        TextNode::Type(TypeHint::Regular("array".to_string())),
        TextNode::Text(". ".to_string()),
    ];
    assert_eq!(
        preview(&function),
        "count(Countable|array $value): int;\n\nCounts all elements in an array ."
    );
    assert_eq!(preview(&definition("time")), "time(): int;\n\n");
}

#[test]
fn pane_shows_the_preview_of_the_selection() {
    let list = functions();
    let entries = FuzzyFilter::new().search(&list, "len");
    assert_eq!(pane(&list, &entries, Some(0)), "strlen(): int;\n\n");
    assert_eq!(pane(&list, &entries, None), "No preview available");
    assert_eq!(pane(&list, &entries, Some(5)), "No preview available");
}
