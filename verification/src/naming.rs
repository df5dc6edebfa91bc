//! The names under which results are reported.
//!
//! A name encodes everything that tells one benchmark from another: the kind
//! of container, the types of its keys and values, the hash algorithm and the
//! scenario. Results are tracked over time by name, so a name never changes
//! and no two benchmarks share one.
//!
//! A map benchmark is named `{frontend}_{scenario}_{keytype}_{valuetype}`, a
//! set benchmark `HashSet<{keytype},{algorithm}>::{scenario}`.

use crate::scenario::Operation;
use crate::scenario::Scenario;
use vstd::prelude::*;

verus! {

/// The word for an operation, as both forms of name spell it.
pub open spec fn operation_word(operation: Operation) -> Seq<char> {
    match operation {
        Operation::Insert => "insert"@,
        Operation::Lookup => "get"@,
        Operation::Remove => "remove"@,
    }
}

/// The word for the state that a scenario expects, as the name of a map
/// benchmark spells it.
pub open spec fn map_state_word(scenario: Scenario) -> Seq<char> {
    match scenario {
        Scenario::InsertAbsent | Scenario::LookupAbsent | Scenario::RemoveAbsent => "noexist"@,
        Scenario::InsertPresent | Scenario::LookupPresent => "exist"@,
        Scenario::RemovePresent => "exists"@,
    }
}

/// The word for the state that a scenario expects, as the name of a set
/// benchmark spells it, without its opening bracket.
pub open spec fn set_state_word(present: bool) -> Seq<char> {
    if present {
        "exists]"@
    } else {
        "!exists]"@
    }
}

/// The scenario's part of the name of a map benchmark.
pub open spec fn spec_map_label(scenario: Scenario) -> Seq<char> {
    operation_word(scenario.spec_operation()) + seq!['_'] + map_state_word(scenario)
}

/// The scenario's part of the name of a set benchmark.
pub open spec fn spec_set_label(scenario: Scenario) -> Seq<char> {
    operation_word(scenario.spec_operation()) + seq!['['] + set_state_word(
        scenario.spec_expects_present(),
    )
}

/// `{frontend}_{inner}_{keytype}_{valuetype}`
pub open spec fn spec_map_name(
    frontend: Seq<char>,
    inner: Seq<char>,
    key_type: Seq<char>,
    value_type: Seq<char>,
) -> Seq<char> {
    frontend + seq!['_'] + inner + seq!['_'] + key_type + seq!['_'] + value_type
}

/// `HashSet<{keytype},{algorithm}>::{inner}`
pub open spec fn spec_set_name(algorithm: Seq<char>, inner: Seq<char>, key_type: Seq<char>) -> Seq<
    char,
> {
    "HashSet<"@ + key_type + seq![','] + algorithm + seq!['>'] + seq![':', ':'] + inner
}

impl Scenario {
    /// The scenario's part of the name of a map benchmark.
    pub fn map_label(self) -> (label: &'static str)
        ensures
            label@ == spec_map_label(self),
    {
        proof {
            reveal_strlit("insert");
            reveal_strlit("get");
            reveal_strlit("remove");
            reveal_strlit("noexist");
            reveal_strlit("exist");
            reveal_strlit("exists");
        }
        match self {
            Scenario::InsertAbsent => {
                proof {
                    reveal_strlit("insert_noexist");
                }
                assert("insert_noexist"@ =~= spec_map_label(self));
                "insert_noexist"
            },
            Scenario::InsertPresent => {
                proof {
                    reveal_strlit("insert_exist");
                }
                assert("insert_exist"@ =~= spec_map_label(self));
                "insert_exist"
            },
            Scenario::LookupAbsent => {
                proof {
                    reveal_strlit("get_noexist");
                }
                assert("get_noexist"@ =~= spec_map_label(self));
                "get_noexist"
            },
            Scenario::LookupPresent => {
                proof {
                    reveal_strlit("get_exist");
                }
                assert("get_exist"@ =~= spec_map_label(self));
                "get_exist"
            },
            Scenario::RemoveAbsent => {
                proof {
                    reveal_strlit("remove_noexist");
                }
                assert("remove_noexist"@ =~= spec_map_label(self));
                "remove_noexist"
            },
            Scenario::RemovePresent => {
                proof {
                    reveal_strlit("remove_exists");
                }
                assert("remove_exists"@ =~= spec_map_label(self));
                "remove_exists"
            },
        }
    }

    /// The scenario's part of the name of a set benchmark.
    pub fn set_label(self) -> (label: &'static str)
        ensures
            label@ == spec_set_label(self),
    {
        proof {
            reveal_strlit("insert");
            reveal_strlit("get");
            reveal_strlit("remove");
            reveal_strlit("exists]");
            reveal_strlit("!exists]");
        }
        match self {
            Scenario::InsertAbsent => {
                proof {
                    reveal_strlit("insert[!exists]");
                }
                assert("insert[!exists]"@ =~= spec_set_label(self));
                "insert[!exists]"
            },
            Scenario::InsertPresent => {
                proof {
                    reveal_strlit("insert[exists]");
                }
                assert("insert[exists]"@ =~= spec_set_label(self));
                "insert[exists]"
            },
            Scenario::LookupAbsent => {
                proof {
                    reveal_strlit("get[!exists]");
                }
                assert("get[!exists]"@ =~= spec_set_label(self));
                "get[!exists]"
            },
            Scenario::LookupPresent => {
                proof {
                    reveal_strlit("get[exists]");
                }
                assert("get[exists]"@ =~= spec_set_label(self));
                "get[exists]"
            },
            Scenario::RemoveAbsent => {
                proof {
                    reveal_strlit("remove[!exists]");
                }
                assert("remove[!exists]"@ =~= spec_set_label(self));
                "remove[!exists]"
            },
            Scenario::RemovePresent => {
                proof {
                    reveal_strlit("remove[exists]");
                }
                assert("remove[exists]"@ =~= spec_set_label(self));
                "remove[exists]"
            },
        }
    }
}

/// The name of a map benchmark: the frontend (the short name of the hash
/// algorithm), the scenario's label and the names of the key and value types,
/// joined by underscores.
pub fn map_name(frontend: &str, inner: &str, key_type: &str, value_type: &str) -> (name: String)
    ensures
        name@ == spec_map_name(frontend@, inner@, key_type@, value_type@),
{
    proof {
        reveal_strlit("_");
    }
    assert("_"@ =~= seq!['_']);
    let mut name = String::from_str(frontend);
    name.append("_");
    name.append(inner);
    name.append("_");
    name.append(key_type);
    name.append("_");
    name.append(value_type);
    name
}

/// The name of a set benchmark: the set's type, written with the name of its
/// key type and the full name of the hash algorithm, and behind it the
/// scenario's label.
pub fn name_fn(name: &str, inner: &str, vt: &str) -> (full: String)
    ensures
        full@ == spec_set_name(name@, inner@, vt@),
{
    proof {
        reveal_strlit(",");
        reveal_strlit(">::");
    }
    assert(","@ =~= seq![',']);
    assert(">::"@ =~= seq!['>'] + seq![':', ':']);
    let mut full = String::from_str("HashSet<");
    full.append(vt);
    full.append(",");
    full.append(name);
    full.append(">::");
    full.append(inner);
    assert(full@ =~= spec_set_name(name@, inner@, vt@));
    full
}

/// A benchmark case as its names tell it: the kind of container, the hash
/// algorithm and the names of the types it is instantiated with.
pub enum Case {
    /// A hash map; `frontend` is the short name of the hash algorithm.
    ForMap { frontend: String, key_type: String, value_type: String },
    /// A hash set; `algorithm` is the full name of the hash algorithm.
    ForSet { algorithm: String, element_type: String },
}

/// A case with its strings taken as sequences of characters.
pub enum CaseView {
    ForMap { frontend: Seq<char>, key_type: Seq<char>, value_type: Seq<char> },
    ForSet { algorithm: Seq<char>, element_type: Seq<char> },
}

impl View for Case {
    type V = CaseView;

    open spec fn view(&self) -> CaseView {
        match self {
            Case::ForMap { frontend, key_type, value_type } => CaseView::ForMap {
                frontend: frontend@,
                key_type: key_type@,
                value_type: value_type@,
            },
            Case::ForSet { algorithm, element_type } => CaseView::ForSet {
                algorithm: algorithm@,
                element_type: element_type@,
            },
        }
    }
}

/// `text` does not hold the character `mark`.
pub open spec fn free_of(text: Seq<char>, mark: char) -> bool {
    forall|i: int| 0 <= i < text.len() ==> text[i] != mark
}

impl CaseView {
    /// The name under which the case reports a scenario.
    pub open spec fn name(self, scenario: Scenario) -> Seq<char> {
        match self {
            CaseView::ForMap { frontend, key_type, value_type } => spec_map_name(
                frontend,
                spec_map_label(scenario),
                key_type,
                value_type,
            ),
            CaseView::ForSet { algorithm, element_type } => spec_set_name(
                algorithm,
                spec_set_label(scenario),
                element_type,
            ),
        }
    }

    /// Whether the parts of the case can be told apart in its names: each
    /// part but the last is free of the character that ends it. The frontend
    /// of a map is also free of `<`, which every set's name holds.
    pub open spec fn well_formed(self) -> bool {
        match self {
            CaseView::ForMap { frontend, key_type, value_type } => {
                &&& free_of(frontend, '_')
                &&& free_of(frontend, '<')
                &&& free_of(key_type, '_')
            },
            CaseView::ForSet { algorithm, element_type } => {
                &&& free_of(element_type, ',')
                &&& free_of(algorithm, '>')
            },
        }
    }
}

/// Whether `text` does not hold the character `mark`.
pub fn is_free_of(text: &str, mark: char) -> (free: bool)
    ensures
        free == free_of(text@, mark),
{
    let len = text.unicode_len();
    let mut at: usize = 0;
    while at < len
        invariant
            len == text@.len(),
            at <= len,
            forall|i: int| 0 <= i < at ==> text@[i] != mark,
        decreases len - at,
    {
        if text.get_char(at) == mark {
            return false;
        }
        at = at + 1;
    }
    true
}

impl Case {
    /// Whether the parts of the case can be told apart in its names.
    pub fn is_well_formed(&self) -> (well_formed: bool)
        ensures
            well_formed == self@.well_formed(),
    {
        match self {
            Case::ForMap { frontend, key_type, value_type } => {
                is_free_of(frontend.as_str(), '_') && is_free_of(frontend.as_str(), '<')
                    && is_free_of(key_type.as_str(), '_')
            },
            Case::ForSet { algorithm, element_type } => {
                is_free_of(element_type.as_str(), ',') && is_free_of(algorithm.as_str(), '>')
            },
        }
    }

    /// The name under which the case reports a scenario.
    pub fn name(&self, scenario: Scenario) -> (name: String)
        ensures
            name@ == self@.name(scenario),
    {
        match self {
            Case::ForMap { frontend, key_type, value_type } => map_name(
                frontend.as_str(),
                scenario.map_label(),
                key_type.as_str(),
                value_type.as_str(),
            ),
            Case::ForSet { algorithm, element_type } => name_fn(
                algorithm.as_str(),
                scenario.set_label(),
                element_type.as_str(),
            ),
        }
    }
}

/// Two texts that agree once each is followed by `mark` and a rest, and that
/// are both free of `mark`, are the same text, and so are the rests.
proof fn lemma_split(
    mark: char,
    head_a: Seq<char>,
    rest_a: Seq<char>,
    head_b: Seq<char>,
    rest_b: Seq<char>,
)
    requires
        free_of(head_a, mark),
        free_of(head_b, mark),
        head_a + seq![mark] + rest_a == head_b + seq![mark] + rest_b,
    ensures
        head_a == head_b,
        rest_a == rest_b,
{
    let a = head_a + seq![mark] + rest_a;
    let b = head_b + seq![mark] + rest_b;
    if head_a.len() < head_b.len() {
        assert(a[head_a.len() as int] == mark);
        assert(b[head_a.len() as int] == head_b[head_a.len() as int]);
    }
    if head_b.len() < head_a.len() {
        assert(b[head_b.len() as int] == mark);
        assert(a[head_b.len() as int] == head_a[head_b.len() as int]);
    }
    assert(head_a =~= head_b) by {
        assert forall|i: int| 0 <= i < head_a.len() implies head_a[i] == head_b[i] by {
            assert(a[i] == head_a[i]);
            assert(b[i] == head_b[i]);
        }
    }
    assert(rest_a =~= rest_b) by {
        assert(a.len() == b.len());
        assert forall|i: int| 0 <= i < rest_a.len() implies rest_a[i] == rest_b[i] by {
            assert(a[head_a.len() + 1 + i] == rest_a[i]);
            assert(b[head_b.len() + 1 + i] == rest_b[i]);
        }
    }
}

/// Two texts that agree once the same text is put before each are the same.
proof fn lemma_strip(front: Seq<char>, rest_a: Seq<char>, rest_b: Seq<char>)
    requires
        front + rest_a == front + rest_b,
    ensures
        rest_a == rest_b,
{
    let a = front + rest_a;
    let b = front + rest_b;
    assert(a.len() == front.len() + rest_a.len());
    assert(b.len() == front.len() + rest_b.len());
    assert(rest_a.len() == rest_b.len());
    assert forall|i: int| 0 <= i < rest_a.len() implies rest_a[i] == rest_b[i] by {
        assert(a[front.len() + i] == rest_a[i]);
        assert(b[front.len() + i] == rest_b[i]);
    }
    assert(rest_a =~= rest_b);
}

/// The words for the operations hold no character that separates the parts
/// of a name, and different operations have different words.
proof fn lemma_operation_words(a: Operation, b: Operation)
    ensures
        free_of(operation_word(a), '_'),
        free_of(operation_word(a), '['),
        operation_word(a) == operation_word(b) ==> a == b,
{
    reveal_strlit("insert");
    reveal_strlit("get");
    reveal_strlit("remove");
    assert("insert"@.len() == 6 && "get"@.len() == 3 && "remove"@.len() == 6);
    assert("insert"@[0] != "remove"@[0]);
}

/// The words for the expected state hold no underscore, and tell apart the
/// two scenarios of one operation.
proof fn lemma_state_words(a: Scenario, b: Scenario)
    ensures
        free_of(map_state_word(a), '_'),
        a.spec_operation() == b.spec_operation() && map_state_word(a) == map_state_word(b) ==> a
            == b,
        a.spec_operation() == b.spec_operation() && set_state_word(a.spec_expects_present())
            == set_state_word(b.spec_expects_present()) ==> a == b,
{
    reveal_strlit("noexist");
    reveal_strlit("exist");
    reveal_strlit("exists");
    reveal_strlit("exists]");
    reveal_strlit("!exists]");
    assert("noexist"@.len() == 7 && "exist"@.len() == 5 && "exists"@.len() == 6);
    assert("exists]"@.len() == 7 && "!exists]"@.len() == 8);
}

/// The name of a map benchmark, parted at its underscores from the left.
proof fn lemma_map_name_parts(
    frontend: Seq<char>,
    scenario: Scenario,
    key_type: Seq<char>,
    value_type: Seq<char>,
)
    ensures
        spec_map_name(frontend, spec_map_label(scenario), key_type, value_type) == frontend
            + seq!['_'] + (operation_word(scenario.spec_operation()) + seq!['_'] + (map_state_word(
            scenario,
        ) + seq!['_'] + (key_type + seq!['_'] + value_type))),
{
    assert(spec_map_name(frontend, spec_map_label(scenario), key_type, value_type) =~= frontend
        + seq!['_'] + (operation_word(scenario.spec_operation()) + seq!['_'] + (map_state_word(
        scenario,
    ) + seq!['_'] + (key_type + seq!['_'] + value_type))));
}

/// The name of a set benchmark, parted at its separators from the left.
proof fn lemma_set_name_parts(algorithm: Seq<char>, scenario: Scenario, key_type: Seq<char>)
    ensures
        spec_set_name(algorithm, spec_set_label(scenario), key_type) == "HashSet<"@ + (key_type
            + seq![','] + (algorithm + seq!['>'] + (seq![':', ':'] + spec_set_label(scenario)))),
{
    assert(spec_set_name(algorithm, spec_set_label(scenario), key_type) =~= "HashSet<"@ + (key_type
        + seq![','] + (algorithm + seq!['>'] + (seq![':', ':'] + spec_set_label(scenario)))));
}

/// Two maps that report two scenarios under one name are the same case, and
/// the scenarios are the same.
proof fn lemma_map_names_are_unique(a: CaseView, s: Scenario, b: CaseView, t: Scenario)
    requires
        a is ForMap,
        b is ForMap,
        a.well_formed(),
        b.well_formed(),
        a.name(s) == b.name(t),
    ensures
        a == b,
        s == t,
{
    let tail_a = a->key_type + seq!['_'] + a->value_type;
    let tail_b = b->key_type + seq!['_'] + b->value_type;
    let state_a = map_state_word(s) + seq!['_'] + tail_a;
    let state_b = map_state_word(t) + seq!['_'] + tail_b;
    let word_a = operation_word(s.spec_operation());
    let word_b = operation_word(t.spec_operation());
    lemma_map_name_parts(a->frontend, s, a->key_type, a->value_type);
    lemma_map_name_parts(b->frontend, t, b->key_type, b->value_type);
    lemma_operation_words(s.spec_operation(), t.spec_operation());
    lemma_operation_words(t.spec_operation(), s.spec_operation());
    lemma_state_words(s, t);
    lemma_state_words(t, s);
    lemma_split(
        '_',
        a->frontend,
        word_a + seq!['_'] + state_a,
        b->frontend,
        word_b + seq!['_'] + state_b,
    );
    lemma_split('_', word_a, state_a, word_b, state_b);
    lemma_split('_', map_state_word(s), tail_a, map_state_word(t), tail_b);
    lemma_split('_', a->key_type, a->value_type, b->key_type, b->value_type);
}

/// Two sets that report two scenarios under one name are the same case, and
/// the scenarios are the same.
proof fn lemma_set_names_are_unique(a: CaseView, s: Scenario, b: CaseView, t: Scenario)
    requires
        a is ForSet,
        b is ForSet,
        a.well_formed(),
        b.well_formed(),
        a.name(s) == b.name(t),
    ensures
        a == b,
        s == t,
{
    let word_a = operation_word(s.spec_operation());
    let word_b = operation_word(t.spec_operation());
    let state_a = set_state_word(s.spec_expects_present());
    let state_b = set_state_word(t.spec_expects_present());
    let colons = seq![':', ':'];
    let tail_a = colons + spec_set_label(s);
    let tail_b = colons + spec_set_label(t);
    let rest_a = a->algorithm + seq!['>'] + tail_a;
    let rest_b = b->algorithm + seq!['>'] + tail_b;
    lemma_set_name_parts(a->algorithm, s, a->element_type);
    lemma_set_name_parts(b->algorithm, t, b->element_type);
    lemma_operation_words(s.spec_operation(), t.spec_operation());
    lemma_operation_words(t.spec_operation(), s.spec_operation());
    lemma_state_words(s, t);
    lemma_strip(
        "HashSet<"@,
        a->element_type + seq![','] + rest_a,
        b->element_type + seq![','] + rest_b,
    );
    lemma_split(',', a->element_type, rest_a, b->element_type, rest_b);
    lemma_split('>', a->algorithm, tail_a, b->algorithm, tail_b);
    lemma_strip(colons, spec_set_label(s), spec_set_label(t));
    lemma_split('[', word_a, state_a, word_b, state_b);
}

/// The name of a set benchmark begins with `HashSet<`. The name of a map
/// benchmark has an underscore behind its frontend, which holds no `<`.
proof fn lemma_map_name_is_no_set_name(map: CaseView, s: Scenario, set: CaseView, t: Scenario)
    requires
        map is ForMap,
        set is ForSet,
        map.well_formed(),
    ensures
        map.name(s) != set.name(t),
{
    reveal_strlit("HashSet<");
    let frontend = map->frontend;
    let map_name = map.name(s);
    let set_name = set.name(t);
    lemma_map_name_parts(frontend, s, map->key_type, map->value_type);
    lemma_set_name_parts(set->algorithm, t, set->element_type);
    if map_name == set_name {
        assert("HashSet<"@.len() == 8);
        assert(map_name[frontend.len() as int] == '_');
        if frontend.len() < 8 {
            assert(set_name[frontend.len() as int] == "HashSet<"@[frontend.len() as int]);
        } else {
            assert(map_name[7] == frontend[7]);
            assert(set_name[7] == "HashSet<"@[7]);
        }
    }
}

/// No two benchmarks share a name: where two well-formed cases report two
/// scenarios under one name, they are the same case and the same scenario.
pub proof fn law_names_are_unique(a: CaseView, s: Scenario, b: CaseView, t: Scenario)
    requires
        a.well_formed(),
        b.well_formed(),
    ensures
        a.name(s) == b.name(t) ==> a == b && s == t,
{
    if a.name(s) == b.name(t) {
        if a is ForMap && b is ForMap {
            lemma_map_names_are_unique(a, s, b, t);
        } else if a is ForSet && b is ForSet {
            lemma_set_names_are_unique(a, s, b, t);
        } else if a is ForMap {
            lemma_map_name_is_no_set_name(a, s, b, t);
        } else {
            lemma_map_name_is_no_set_name(b, t, a, s);
        }
    }
}

} // verus!
