//! The entry registry: the configured commands, in file order.
use vstd::prelude::*;
use crate::matching::{occurs, occurs_in};
use crate::json::{json_document, json_elements, json_member, json_text, member, parse_document};

verus! {

/// One launchable item, as it reads in the configuration.
pub struct Entry {
    name: String,
    bin: String,
    args: Vec<String>,
}

/// The mathematical value of an [`Entry`].
pub struct EntryView {
    pub name: Seq<char>,
    pub bin: Seq<char>,
    pub args: Seq<Seq<char>>,
}

impl View for Entry {
    type V = EntryView;

    closed spec fn view(&self) -> EntryView {
        EntryView { name: self.name@, bin: self.bin@, args: self.args@.map_values(|a: String| a@) }
    }
}

impl Entry {
    /// The display label.
    pub fn name(&self) -> (r: &str)
        ensures
            r@ == self@.name,
    {
        self.name.as_str()
    }

    /// The executable's path or command name.
    pub fn bin(&self) -> (r: &str)
        ensures
            r@ == self@.bin,
    {
        self.bin.as_str()
    }

    /// The arguments, in order.
    pub fn args(&self) -> (r: &[String])
        ensures
            r@.map_values(|a: String| a@) == self@.args,
    {
        self.args.as_slice()
    }
}

/// Why a configuration could not be loaded.
#[derive(Debug, Clone, Copy, PartialEq, Eq, Structural)]
pub enum ConfigError {
    /// The configuration file does not exist or cannot be opened.
    NotFound,
    /// The content is not a JSON array of records with a text `name`, a text
    /// `bin` and an `args` array of texts.
    Malformed,
}

/// The ordered, load-once collection of entries.
pub struct Registry {
    entries: Vec<Entry>,
}

impl View for Registry {
    type V = Seq<EntryView>;

    closed spec fn view(&self) -> Seq<EntryView> {
        self.entries@.map_values(|e: Entry| e@)
    }
}

/// The member that holds a record's display label.
pub open spec fn name_key() -> Seq<char> {
    seq!['n', 'a', 'm', 'e']
}

/// The member that holds a record's executable.
pub open spec fn bin_key() -> Seq<char> {
    seq!['b', 'i', 'n']
}

/// The member that holds a record's arguments.
pub open spec fn args_key() -> Seq<char> {
    seq!['a', 'r', 'g', 's']
}

/// The text of the member under `key`, when there is one and it is a string.
pub open spec fn text_member(v: serde_json::Value, key: Seq<char>) -> Option<Seq<char>> {
    match json_member(v, key) {
        Some(m) => json_text(m),
        None => None,
    }
}

/// The texts of a sequence of values, when every one of them is a string.
pub open spec fn texts(items: Seq<serde_json::Value>) -> Option<Seq<Seq<char>>> {
    if forall|i: int| 0 <= i < items.len() ==> (#[trigger] json_text(items[i])) is Some {
        Some(items.map_values(|v: serde_json::Value| json_text(v)->0))
    } else {
        None
    }
}

/// The `args` member of a record as texts, when it is an array of strings.
pub open spec fn args_member(v: serde_json::Value) -> Option<Seq<Seq<char>>> {
    match json_member(v, args_key()) {
        Some(m) => match json_elements(m) {
            Some(items) => texts(items),
            None => None,
        },
        None => None,
    }
}

/// The entry that a JSON value describes, when it is a well-formed record.
pub open spec fn record_of(v: serde_json::Value) -> Option<EntryView> {
    match (text_member(v, name_key()), text_member(v, bin_key()), args_member(v)) {
        (Some(name), Some(bin), Some(args)) => Some(EntryView { name, bin, args }),
        _ => None,
    }
}

/// The entries of a sequence of records, when every one is well-formed.
pub open spec fn records(items: Seq<serde_json::Value>) -> Option<Seq<EntryView>> {
    if forall|i: int| 0 <= i < items.len() ==> (#[trigger] record_of(items[i])) is Some {
        Some(items.map_values(|v: serde_json::Value| record_of(v)->0))
    } else {
        None
    }
}

/// The entries that a configuration file's content describes, in file order,
/// when it is a JSON array of well-formed records.
pub open spec fn config_entries(bytes: Seq<u8>) -> Option<Seq<EntryView>> {
    match json_document(bytes) {
        Some(doc) => match json_elements(doc) {
            Some(items) => records(items),
            None => None,
        },
        None => None,
    }
}

/// A configuration that loads has one entry per record of the file, in the
/// file's order, each labelled with its record's `name`.
pub proof fn lemma_entries_follow_records(bytes: Seq<u8>)
    requires
        config_entries(bytes) is Some,
    ensures
        ({
            let items = json_elements(json_document(bytes)->0)->0;
            let es = config_entries(bytes)->0;
            &&& es.len() == items.len()
            &&& forall|i: int|
                0 <= i < es.len() ==> text_member(items[i], name_key()) == Some(
                    #[trigger] es[i].name,
                )
        }),
{
    let items = json_elements(json_document(bytes)->0)->0;
    let es = config_entries(bytes)->0;
    assert forall|i: int| 0 <= i < es.len() implies text_member(items[i], name_key()) == Some(
        #[trigger] es[i].name,
    ) by {
        assert(record_of(items[i]) is Some);
    }
}

/// A file with a record that lacks `bin` does not load: it is malformed.
pub proof fn lemma_missing_bin_is_malformed(bytes: Seq<u8>, i: int)
    requires
        json_document(bytes) matches Some(doc) && json_elements(doc) matches Some(items) && 0 <= i
            < items.len() && json_member(items[i], bin_key()) is None,
    ensures
        config_entries(bytes) is None,
{
    let items = json_elements(json_document(bytes)->0)->0;
    assert(record_of(items[i]) is None);
}

/// The text of a string value, copied.
fn read_text(v: &serde_json::Value) -> (r: Option<String>)
    ensures
        match r {
            Some(s) => json_text(*v) == Some(s@),
            None => json_text(*v) is None,
        },
{
    match v.as_str() {
        Some(s) => Some(s.to_owned()),
        None => None,
    }
}

/// Every element of an array of strings, copied; `None` if one is no string.
fn read_texts(items: &Vec<serde_json::Value>) -> (r: Option<Vec<String>>)
    ensures
        match r {
            Some(out) => texts(items@) == Some(out@.map_values(|a: String| a@)),
            None => texts(items@) is None,
        },
{
    let mut out: Vec<String> = Vec::new();
    let mut i: usize = 0;
    while i < items.len()
        invariant
            i <= items@.len(),
            out@.len() == i,
            forall|j: int| 0 <= j < i ==> #[trigger] json_text(items@[j]) == Some(out@[j]@),
        decreases items@.len() - i,
    {
        match read_text(&items[i]) {
            Some(s) => out.push(s),
            None => {
                assert(json_text(items@[i as int]) is None);
                return None;
            },
        }
        i = i + 1;
    }
    assert(texts(items@) == Some(out@.map_values(|a: String| a@))) by {
        assert(forall|j: int| 0 <= j < items@.len() ==> (#[trigger] json_text(items@[j])) is Some);
        assert(items@.map_values(|v: serde_json::Value| json_text(v)->0) =~= out@.map_values(
            |a: String| a@,
        ));
    }
    Some(out)
}

/// The entry that one record describes, or `None` if it is not well-formed.
fn read_record(v: &serde_json::Value) -> (r: Option<Entry>)
    ensures
        match r {
            Some(e) => record_of(*v) == Some(e@),
            None => record_of(*v) is None,
        },
{
    proof {
        reveal_strlit("name");
        reveal_strlit("bin");
        reveal_strlit("args");
    }
    let name = match member(v, "name") {
        Some(m) => read_text(m),
        None => None,
    };
    let bin = match member(v, "bin") {
        Some(m) => read_text(m),
        None => None,
    };
    let args = match member(v, "args") {
        Some(m) => match m.as_array() {
            Some(items) => read_texts(items),
            None => None,
        },
        None => None,
    };
    assert("name"@ =~= name_key());
    assert("bin"@ =~= bin_key());
    assert("args"@ =~= args_key());
    match (name, bin, args) {
        (Some(name), Some(bin), Some(args)) => Some(Entry { name, bin, args }),
        _ => None,
    }
}

impl Registry {
    /// The number of loaded entries.
    pub fn count(&self) -> (r: usize)
        ensures
            r == self@.len(),
    {
        self.entries.len()
    }

    /// The display name of the entry at `index`.
    pub fn label(&self, index: usize) -> (r: &str)
        requires
            index < self@.len(),
        ensures
            r@ == self@[index as int].name,
    {
        self.entries[index].name.as_str()
    }

    /// The entry at `index`, or `None` when `index` is out of range.
    pub fn entry(&self, index: usize) -> (r: Option<&Entry>)
        ensures
            index < self@.len() ==> (r matches Some(e) && e@ == self@[index as int]),
            index >= self@.len() ==> r is None,
    {
        if index < self.entries.len() {
            Some(&self.entries[index])
        } else {
            None
        }
    }

    /// Whether the entry at `index` matches the search text `query`: false
    /// when `index` is out of range.
    pub fn matches(&self, index: usize, query: &str) -> (r: bool)
        ensures
            r == (index < self@.len() && occurs_in(self@[index as int].name, query@)),
    {
        match self.entry(index) {
            Some(e) => occurs(e.name.as_str(), query),
            None => false,
        }
    }

    /// The entry to run when `index` is chosen: its executable and arguments
    /// go to the process launcher exactly as configured. An out-of-range
    /// `index` asks for nothing to be run.
    pub fn launch(&self, index: usize) -> (r: Option<&Entry>)
        ensures
            index < self@.len() ==> (r matches Some(e) && e@ == self@[index as int]),
            index >= self@.len() ==> r is None,
    {
        self.entry(index)
    }

    /// Builds the registry from the configuration file's content, or from
    /// `None` when the file could not be opened.
    pub fn load(contents: Option<&[u8]>) -> (r: Result<Registry, ConfigError>)
        ensures
            contents is None ==> r == Err::<Registry, ConfigError>(ConfigError::NotFound),
            contents matches Some(bytes) ==> match config_entries(bytes@) {
                Some(es) => r matches Ok(reg) && reg@ == es,
                None => r == Err::<Registry, ConfigError>(ConfigError::Malformed),
            },
    {
        let bytes = match contents {
            Some(b) => b,
            None => return Err(ConfigError::NotFound),
        };
        let doc = match parse_document(bytes) {
            Some(d) => d,
            None => return Err(ConfigError::Malformed),
        };
        let items = match doc.as_array() {
            Some(a) => a,
            None => return Err(ConfigError::Malformed),
        };
        let mut entries: Vec<Entry> = Vec::new();
        let mut i: usize = 0;
        while i < items.len()
            invariant
                contents == Some(bytes),
                json_document(bytes@) == Some(doc),
                json_elements(doc) == Some(items@),
                i <= items@.len(),
                entries@.len() == i,
                forall|j: int| 0 <= j < i ==> #[trigger] record_of(items@[j]) == Some(entries@[j]@),
            decreases items@.len() - i,
        {
            match read_record(&items[i]) {
                Some(e) => entries.push(e),
                None => {
                    assert(record_of(items@[i as int]) is None);
                    return Err(ConfigError::Malformed);
                },
            }
            i = i + 1;
        }
        let reg = Registry { entries };
        assert(records(items@) == Some(reg@)) by {
            assert(forall|j: int| 0 <= j < items@.len() ==> (#[trigger] record_of(items@[j])) is Some);
            assert(items@.map_values(|v: serde_json::Value| record_of(v)->0) =~= reg@);
        }
        Ok(reg)
    }
}

} // verus!
