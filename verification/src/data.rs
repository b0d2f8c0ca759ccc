use vstd::prelude::*;

verus! {

/// A number as read from a JSON or YAML document: its value as an unsigned
/// and as a signed 64-bit integer where it is one, and its decimal text.
#[derive(Clone)]
pub struct DataNumber {
    pub as_u64: Option<u64>,
    pub as_i64: Option<i64>,
    pub text: String,
}

/// A JSON or YAML document: the library's own model of what the parsers
/// produce. Object entries keep their keys as text, in the parser's order.
pub enum DataValue {
    Null,
    Bool(bool),
    Number(DataNumber),
    Str(String),
    List(Vec<DataValue>),
    Object(Vec<(String, DataValue)>),
}

/// The mathematical view of a number.
pub struct NumView {
    pub as_u64: Option<u64>,
    pub as_i64: Option<i64>,
    pub text: Seq<char>,
}

/// The mathematical view of a document.
pub enum Data {
    Null,
    Bool(bool),
    Num(NumView),
    Str(Seq<char>),
    List(Seq<Data>),
    Object(Seq<(Seq<char>, Data)>),
}

/// No key occurs twice among the entries of an object.
pub open spec fn distinct_keys(es: Seq<(Seq<char>, Data)>) -> bool {
    forall|i: int, j: int| 0 <= i < j < es.len() ==> es[i].0 != es[j].0
}

/// One step into a document: the value under a key, or the item at a position.
pub enum PathStep {
    Key(Seq<char>),
    Index(int),
}

/// The value reached from a document along a path, if the path leads anywhere.
pub open spec fn at_path(d: Data, path: Seq<PathStep>) -> Option<Data>
    decreases path.len(),
{
    if path.len() == 0 {
        Some(d)
    } else {
        match path[0] {
            PathStep::Key(k) => match d.get(k) {
                Some(v) => at_path(v, path.drop_first()),
                None => None,
            },
            PathStep::Index(i) => match d {
                Data::List(xs) => if 0 <= i < xs.len() {
                    at_path(xs[i], path.drop_first())
                } else {
                    None
                },
                _ => None,
            },
        }
    }
}

/// No object in the document, at any depth, has a key twice: the documents
/// that a JSON parse gives, whose objects are maps.
pub open spec fn keys_unique(d: Data) -> bool {
    forall|path: Seq<PathStep>| #[trigger] object_keys_distinct(at_path(d, path))
}

/// Where a value is an object, its keys are distinct.
pub open spec fn object_keys_distinct(v: Option<Data>) -> bool {
    match v {
        Some(Data::Object(es)) => distinct_keys(es),
        _ => true,
    }
}

/// In a document whose keys are unique, so are those of the value under a key.
pub proof fn lemma_get_keys_unique(d: Data, key: Seq<char>)
    requires
        keys_unique(d),
        d.get(key) is Some,
    ensures
        keys_unique(d.get(key)->Some_0),
{
    let v = d.get(key)->Some_0;
    assert forall|path: Seq<PathStep>| #[trigger] object_keys_distinct(at_path(v, path)) by {
        let longer = seq![PathStep::Key(key)] + path;
        assert(longer.drop_first() =~= path);
        assert(at_path(d, longer) == at_path(v, path));
    }
}

/// In a document whose keys are unique, the entries of each object are
/// distinct.
pub proof fn lemma_object_keys_distinct(d: Data)
    requires
        keys_unique(d),
        d is Object,
    ensures
        distinct_keys(d->Object_0),
{
    assert(object_keys_distinct(at_path(d, Seq::<PathStep>::empty())));
}

/// In a document whose keys are unique, so are those of a list's items.
pub proof fn lemma_item_keys_unique(d: Data, i: int)
    requires
        keys_unique(d),
        d.list_of() is Some,
        0 <= i < d.list_of()->Some_0.len(),
    ensures
        keys_unique(d.list_of()->Some_0[i]),
{
    let xs = d.list_of()->Some_0;
    assert forall|path: Seq<PathStep>| #[trigger] object_keys_distinct(at_path(xs[i], path)) by {
        let longer = seq![PathStep::Index(i)] + path;
        assert(longer.drop_first() =~= path);
        assert(at_path(d, longer) == at_path(xs[i], path));
    }
}

pub open spec fn data_of(v: DataValue) -> Data
    decreases v,
{
    match v {
        DataValue::Null => Data::Null,
        DataValue::Bool(b) => Data::Bool(b),
        DataValue::Number(n) => Data::Num(
            NumView { as_u64: n.as_u64, as_i64: n.as_i64, text: n.text@ },
        ),
        DataValue::Str(s) => Data::Str(s@),
        DataValue::List(items) => Data::List(
            Seq::new(
                items@.len(),
                |i: int| if 0 <= i < items@.len() { data_of(items@[i]) } else { Data::Null },
            ),
        ),
        DataValue::Object(entries) => Data::Object(
            Seq::new(
                entries@.len(),
                |i: int|
                    if 0 <= i < entries@.len() {
                        (entries@[i].0@, data_of(entries@[i].1))
                    } else {
                        (Seq::<char>::empty(), Data::Null)
                    },
            ),
        ),
    }
}

impl Clone for DataValue {
    /// A deep copy.
    fn clone(&self) -> (r: DataValue)
        ensures
            r@ == self@,
    {
        self.copy()
    }
}

impl View for DataValue {
    type V = Data;

    open spec fn view(&self) -> Data {
        data_of(*self)
    }
}

/// The value of the first entry under `key`.
pub open spec fn lookup(entries: Seq<(Seq<char>, Data)>, key: Seq<char>) -> Option<Data>
    decreases entries.len(),
{
    if entries.len() == 0 {
        None
    } else if entries[0].0 == key {
        Some(entries[0].1)
    } else {
        lookup(entries.drop_first(), key)
    }
}

impl Data {
    /// `value.get(key)`: the entry of an object under `key`.
    pub open spec fn get(self, key: Seq<char>) -> Option<Data> {
        match self {
            Data::Object(es) => lookup(es, key),
            _ => None,
        }
    }

    pub open spec fn str_of(self) -> Option<Seq<char>> {
        match self {
            Data::Str(s) => Some(s),
            _ => None,
        }
    }

    pub open spec fn u64_of(self) -> Option<u64> {
        match self {
            Data::Num(n) => n.as_u64,
            _ => None,
        }
    }

    pub open spec fn bool_of(self) -> Option<bool> {
        match self {
            Data::Bool(b) => Some(b),
            _ => None,
        }
    }

    pub open spec fn list_of(self) -> Option<Seq<Data>> {
        match self {
            Data::List(l) => Some(l),
            _ => None,
        }
    }

    /// `value.get(key).and_then(as_str)`.
    pub open spec fn get_str(self, key: Seq<char>) -> Option<Seq<char>> {
        match self.get(key) {
            Some(v) => v.str_of(),
            None => None,
        }
    }

    /// `value.get(key).and_then(as_u64)`.
    pub open spec fn get_u64(self, key: Seq<char>) -> Option<u64> {
        match self.get(key) {
            Some(v) => v.u64_of(),
            None => None,
        }
    }

    /// `value.get(key).and_then(as_bool)`.
    pub open spec fn get_bool(self, key: Seq<char>) -> Option<bool> {
        match self.get(key) {
            Some(v) => v.bool_of(),
            None => None,
        }
    }

    /// `value.get(key).and_then(as_array)`.
    pub open spec fn get_list(self, key: Seq<char>) -> Option<Seq<Data>> {
        match self.get(key) {
            Some(v) => v.list_of(),
            None => None,
        }
    }
}

pub open spec fn opt_view(o: Option<DataValue>) -> Option<Data> {
    match o {
        Some(v) => Some(v@),
        None => None,
    }
}

impl DataValue {
    /// `value.get(key)`.
    pub fn get(&self, key: &str) -> (r: Option<&DataValue>)
        ensures
            match r {
                Some(v) => self@.get(key@) == Some(v@),
                None => self@.get(key@) is None,
            },
    {
        match self {
            DataValue::Object(entries) => {
                let ghost es = self@->Object_0;
                assert(es.skip(0) == es);
                let mut i: usize = 0;
                while i < entries.len()
                    invariant
                        *self == DataValue::Object(*entries),
                        es == self@->Object_0,
                        es.len() == entries@.len(),
                        i <= entries@.len(),
                        lookup(es, key@) == lookup(es.skip(i as int), key@),
                    decreases entries@.len() - i,
                {
                    assert(es[i as int] == (entries@[i as int].0@, entries@[i as int].1@));
                    assert(es.skip(i as int).drop_first() == es.skip(i + 1));
                    if crate::text::str_eq(entries[i].0.as_str(), key) {
                        return Some(&entries[i].1);
                    }
                    i = i + 1;
                }
                None
            },
            _ => None,
        }
    }

    /// `value.as_str()`.
    pub fn as_str(&self) -> (r: Option<&str>)
        ensures
            match r {
                Some(s) => self@.str_of() == Some(s@),
                None => self@.str_of() is None,
            },
    {
        match self {
            DataValue::Str(s) => Some(s.as_str()),
            _ => None,
        }
    }

    /// `value.as_u64()`.
    pub fn as_u64(&self) -> (r: Option<u64>)
        ensures
            r == self@.u64_of(),
    {
        match self {
            DataValue::Number(n) => n.as_u64,
            _ => None,
        }
    }

    /// `value.as_bool()`.
    pub fn as_bool(&self) -> (r: Option<bool>)
        ensures
            r == self@.bool_of(),
    {
        match self {
            DataValue::Bool(b) => Some(*b),
            _ => None,
        }
    }

    /// `value.as_array()`.
    pub fn as_list(&self) -> (r: Option<&Vec<DataValue>>)
        ensures
            match r {
                Some(l) => self@.list_of() == Some(views(l@)),
                None => self@.list_of() is None,
            },
    {
        match self {
            DataValue::List(items) => {
                assert(self@.list_of().unwrap() =~= views(items@));
                Some(items)
            },
            _ => None,
        }
    }

    /// `value.get(key).and_then(|v| v.as_str())`, owned.
    pub fn get_str(&self, key: &str) -> (r: Option<String>)
        ensures
            match r {
                Some(s) => self@.get_str(key@) == Some(s@),
                None => self@.get_str(key@) is None,
            },
    {
        match self.get(key) {
            Some(v) => match v.as_str() {
                Some(s) => Some(s.to_owned()),
                None => None,
            },
            None => None,
        }
    }

    /// `value.get(key).and_then(|v| v.as_u64())`.
    pub fn get_u64(&self, key: &str) -> (r: Option<u64>)
        ensures
            r == self@.get_u64(key@),
    {
        match self.get(key) {
            Some(v) => v.as_u64(),
            None => None,
        }
    }

    /// `value.get(key).and_then(|v| v.as_bool())`.
    pub fn get_bool(&self, key: &str) -> (r: Option<bool>)
        ensures
            r == self@.get_bool(key@),
    {
        match self.get(key) {
            Some(v) => v.as_bool(),
            None => None,
        }
    }

    /// A deep copy.
    pub fn copy(&self) -> (r: DataValue)
        ensures
            r@ == self@,
        decreases self,
    {
        match self {
            DataValue::Null => DataValue::Null,
            DataValue::Bool(b) => DataValue::Bool(*b),
            DataValue::Number(n) => DataValue::Number(
                DataNumber { as_u64: n.as_u64, as_i64: n.as_i64, text: n.text.clone() },
            ),
            DataValue::Str(s) => DataValue::Str(s.clone()),
            DataValue::List(items) => {
                let mut out: Vec<DataValue> = Vec::new();
                let mut i: usize = 0;
                while i < items.len()
                    invariant
                        *self == DataValue::List(*items),
                        i <= items@.len(),
                        out@.len() == i,
                        forall|j: int| 0 <= j < i ==> (#[trigger] out@[j])@ == items@[j]@,
                    decreases items@.len() - i,
                {
                    proof {
                        vstd::std_specs::vec::axiom_vec_index_decreases(*items, i as int);
                        assert(decreases_to!(*self => (*self)->List_0));
                        assert(decreases_to!(*items => items[i as int]));
                    }
                    let c = items[i].copy();
                    out.push(c);
                    i = i + 1;
                }
                let r = DataValue::List(out);
                assert(r@->List_0 =~= self@->List_0);
                r
            },
            DataValue::Object(entries) => {
                let mut out: Vec<(String, DataValue)> = Vec::new();
                let mut i: usize = 0;
                while i < entries.len()
                    invariant
                        *self == DataValue::Object(*entries),
                        i <= entries@.len(),
                        out@.len() == i,
                        forall|j: int|
                            0 <= j < i ==> (#[trigger] out@[j]).1@ == entries@[j].1@ && out@[j].0@
                                == entries@[j].0@,
                    decreases entries@.len() - i,
                {
                    proof {
                        vstd::std_specs::vec::axiom_vec_index_decreases(*entries, i as int);
                        assert(decreases_to!(*self => (*self)->Object_0));
                        assert(decreases_to!(*entries => entries[i as int]));
                        assert(decreases_to!(entries[i as int] => entries[i as int].1));
                    }
                    let c = entries[i].1.copy();
                    out.push((entries[i].0.clone(), c));
                    i = i + 1;
                }
                let r = DataValue::Object(out);
                assert(r@->Object_0 =~= self@->Object_0);
                r
            },
        }
    }
}

} // verus!

verus! {

#[verifier::external_type_specification]
#[verifier::external_body]
pub struct ExJsonValue(serde_json::Value);

#[verifier::external_type_specification]
#[verifier::external_body]
pub struct ExYamlValue(serde_yaml::Value);

/// What `serde_json::from_str::<serde_json::Value>` makes of a text, as a
/// document (`None` where it reports an error).
pub uninterp spec fn json_parse(text: Seq<char>) -> Option<Data>;

/// What `serde_yaml::from_str::<serde_yaml::Value>` makes of a text, as a
/// YAML node (`None` where it reports an error).
pub uninterp spec fn yaml_parse(text: Seq<char>) -> Option<Yaml>;

/// The text `serde_json::to_string` writes for a document.
pub uninterp spec fn json_render(d: Data) -> Seq<char>;

/// The text `serde_json::to_string_pretty` writes for a document.
pub uninterp spec fn json_render_pretty(d: Data) -> Seq<char>;

/// Converts a `serde_json::Value` into the library's document, one variant
/// for one (numbers keep `as_u64`, `as_i64` and their display text).
#[verifier::external_body]
fn from_serde(v: serde_json::Value) -> DataValue {
    match v {
        serde_json::Value::Null => DataValue::Null,
        serde_json::Value::Bool(b) => DataValue::Bool(b),
        serde_json::Value::Number(n) => DataValue::Number(
            DataNumber { as_u64: n.as_u64(), as_i64: n.as_i64(), text: n.to_string() },
        ),
        serde_json::Value::String(s) => DataValue::Str(s),
        serde_json::Value::Array(a) => DataValue::List(a.into_iter().map(from_serde).collect()),
        serde_json::Value::Object(m) => DataValue::Object(
            m.into_iter().map(|(k, v)| (k, from_serde(v))).collect(),
        ),
    }
}

/// Converts the library's document into a `serde_json::Value`, one variant for
/// one (a number goes back through its display text).
#[verifier::external_body]
pub(crate) fn to_serde(v: &DataValue) -> serde_json::Value {
    match v {
        DataValue::Null => serde_json::Value::Null,
        DataValue::Bool(b) => serde_json::Value::Bool(*b),
        DataValue::Number(n) => serde_json::from_str(&n.text).unwrap_or(serde_json::Value::Null),
        DataValue::Str(s) => serde_json::Value::String(s.clone()),
        DataValue::List(items) => serde_json::Value::Array(items.iter().map(to_serde).collect()),
        DataValue::Object(es) => serde_json::Value::Object(
            es.iter().map(|(k, v)| (k.clone(), to_serde(v))).collect(),
        ),
    }
}

/// `serde_json::from_str::<serde_json::Value>`: the contract claims that the
/// result is the named parse of the text, and that its objects, being
/// `serde_json::Map`s, hold each key once.
#[verifier::external_body]
fn read_json(text: &str) -> (r: Option<DataValue>)
    ensures
        opt_view(r) == json_parse(text@),
        r matches Some(v) ==> keys_unique(v@),
{
    serde_json::from_str::<serde_json::Value>(text).ok().map(from_serde)
}

/// Converts a `serde_yaml::Value` into the library's YAML node, one variant
/// for one (a tagged value becomes the value it tags).
#[verifier::external_body]
fn from_yaml(v: serde_yaml::Value) -> YamlNode {
    match v {
        serde_yaml::Value::Null => YamlNode::Null,
        serde_yaml::Value::Bool(b) => YamlNode::Bool(b),
        serde_yaml::Value::Number(n) => YamlNode::Number(
            DataNumber { as_u64: n.as_u64(), as_i64: n.as_i64(), text: n.to_string() },
        ),
        serde_yaml::Value::String(s) => YamlNode::Str(s),
        serde_yaml::Value::Sequence(a) => YamlNode::List(a.into_iter().map(from_yaml).collect()),
        serde_yaml::Value::Mapping(m) => YamlNode::Mapping(
            m.into_iter().map(|(k, v)| (from_yaml(k), from_yaml(v))).collect(),
        ),
        serde_yaml::Value::Tagged(t) => from_yaml(t.value),
    }
}

/// `serde_yaml::from_str::<serde_yaml::Value>`: the contract claims only that
/// the result is the named parse of the text.
#[verifier::external_body]
fn read_yaml(text: &str) -> (r: Option<YamlNode>)
    ensures
        match r {
            Some(n) => yaml_parse(text@) == Some(n@),
            None => yaml_parse(text@) is None,
        },
{
    serde_yaml::from_str::<serde_yaml::Value>(text).ok().map(from_yaml)
}

/// `serde_json::to_string`: the contract claims only that the text is the
/// named rendering of the document (rendering a `Value` does not fail).
#[verifier::external_body]
fn write_json(v: &DataValue) -> (s: String)
    ensures
        s@ == json_render(v@),
{
    serde_json::to_string(&to_serde(v)).unwrap_or_default()
}

/// `serde_json::to_string_pretty`: the contract claims only that the text is
/// the named rendering of the document.
#[verifier::external_body]
fn write_json_pretty(v: &DataValue) -> (s: String)
    ensures
        s@ == json_render_pretty(v@),
{
    serde_json::to_string_pretty(&to_serde(v)).unwrap_or_default()
}

/// Parses a JSON text into a document.
pub fn parse_json(text: &str) -> (r: Option<DataValue>)
    ensures
        opt_view(r) == json_parse(text@),
        r matches Some(v) ==> keys_unique(v@),
{
    read_json(text)
}

/// A document as compact JSON text.
pub fn render_json(v: &DataValue) -> (s: String)
    ensures
        s@ == json_render(v@),
{
    write_json(v)
}

/// A document as indented JSON text.
pub fn render_json_pretty(v: &DataValue) -> (s: String)
    ensures
        s@ == json_render_pretty(v@),
{
    write_json_pretty(v)
}

} // verus!

verus! {

/// `value[key]`: the entry under `key`, or `Null` where there is none.
pub open spec fn at(d: Data, key: Seq<char>) -> Data {
    match d.get(key) {
        Some(v) => v,
        None => Data::Null,
    }
}

/// `value.as_str().unwrap_or("")`.
pub open spec fn str_or_empty(d: Data) -> Seq<char> {
    match d.str_of() {
        Some(s) => s,
        None => Seq::<char>::empty(),
    }
}

/// The document a JSON number literal for `n` is read as.
pub open spec fn num_data(n: u64) -> Data {
    Data::Num(
        NumView {
            as_u64: Some(n),
            as_i64: if n <= i64::MAX { Some(n as i64) } else { None },
            text: crate::text::decimal(n as nat),
        },
    )
}

/// Pairs of text and document, as views.
pub open spec fn pairs_view(es: Seq<(String, DataValue)>) -> Seq<(Seq<char>, Data)> {
    es.map_values(|e: (String, DataValue)| (e.0@, e.1@))
}

impl DataValue {
    /// The number `n`.
    pub fn from_u64(n: u64) -> (r: DataValue)
        ensures
            r@ == num_data(n),
    {
        let as_i64 = if n <= i64::MAX as u64 {
            Some(n as i64)
        } else {
            None
        };
        DataValue::Number(
            DataNumber { as_u64: Some(n), as_i64, text: crate::text::decimal_string(n) },
        )
    }

    /// A string value.
    pub fn text(s: &str) -> (r: DataValue)
        ensures
            r@ == Data::Str(s@),
    {
        DataValue::Str(s.to_owned())
    }

    /// An object with the given entries.
    pub fn object(es: Vec<(String, DataValue)>) -> (r: DataValue)
        ensures
            r@ == Data::Object(pairs_view(es@)),
    {
        let r = DataValue::Object(es);
        assert(r@->Object_0 =~= pairs_view(es@));
        r
    }

    /// A list with the given items.
    pub fn list(items: Vec<DataValue>) -> (r: DataValue)
        ensures
            r@ == Data::List(views(items@)),
    {
        let r = DataValue::List(items);
        assert(r@->List_0 =~= views(items@));
        r
    }

    /// `value[key].as_str().unwrap_or("")`, owned.
    pub fn str_at(&self, key: &str) -> (r: String)
        ensures
            r@ == str_or_empty(at(self@, key@)),
    {
        match self.get(key) {
            Some(v) => match v.as_str() {
                Some(s) => s.to_owned(),
                None => String::new(),
            },
            None => String::new(),
        }
    }
}

} // verus!

verus! {

/// `value.get(outer).and_then(|o| o[key].as_str()).unwrap_or("")`.
pub open spec fn nested_str(d: Data, outer: Seq<char>, key: Seq<char>) -> Seq<char> {
    match d.get(outer) {
        Some(o) => str_or_empty(at(o, key)),
        None => Seq::empty(),
    }
}

impl DataValue {
    /// `value.get(outer).and_then(|o| o[key].as_str()).unwrap_or("")`, owned.
    pub fn nested_str(&self, outer: &str, key: &str) -> (r: String)
        ensures
            r@ == nested_str(self@, outer@, key@),
    {
        match self.get(outer) {
            Some(o) => o.str_at(key),
            None => String::new(),
        }
    }

    /// `value[key].as_u64()`.
    pub fn u64_at(&self, key: &str) -> (r: Option<u64>)
        ensures
            r == at(self@, key@).u64_of(),
    {
        match self.get(key) {
            Some(v) => v.as_u64(),
            None => None,
        }
    }
}

} // verus!

verus! {

pub open spec fn views(v: Seq<DataValue>) -> Seq<Data> {
    v.map_values(|x: DataValue| x@)
}

impl DataValue {
    /// `{k1: v1}`.
    pub fn obj1(k1: &str, v1: DataValue) -> (r: DataValue)
        ensures
            r@ == Data::Object(seq![(k1@, v1@)]),
    {
        let mut es: Vec<(String, DataValue)> = Vec::new();
        es.push((k1.to_owned(), v1));
        let r = DataValue::Object(es);
        assert(r@->Object_0 =~= seq![(k1@, v1@)]);
        r
    }

    /// `{k1: v1, k2: v2}`.
    pub fn obj2(k1: &str, v1: DataValue, k2: &str, v2: DataValue) -> (r: DataValue)
        ensures
            r@ == Data::Object(seq![(k1@, v1@), (k2@, v2@)]),
    {
        let mut es: Vec<(String, DataValue)> = Vec::new();
        es.push((k1.to_owned(), v1));
        es.push((k2.to_owned(), v2));
        let r = DataValue::Object(es);
        assert(r@->Object_0 =~= seq![(k1@, v1@), (k2@, v2@)]);
        r
    }

    /// `{k1: v1, k2: v2, k3: v3}`.
    pub fn obj3(k1: &str, v1: DataValue, k2: &str, v2: DataValue, k3: &str, v3: DataValue) -> (r: DataValue)
        ensures
            r@ == Data::Object(seq![(k1@, v1@), (k2@, v2@), (k3@, v3@)]),
    {
        let mut es: Vec<(String, DataValue)> = Vec::new();
        es.push((k1.to_owned(), v1));
        es.push((k2.to_owned(), v2));
        es.push((k3.to_owned(), v3));
        let r = DataValue::Object(es);
        assert(r@->Object_0 =~= seq![(k1@, v1@), (k2@, v2@), (k3@, v3@)]);
        r
    }

    /// `{k1: v1, k2: v2, k3: v3, k4: v4}`.
    pub fn obj4(
        k1: &str,
        v1: DataValue,
        k2: &str,
        v2: DataValue,
        k3: &str,
        v3: DataValue,
        k4: &str,
        v4: DataValue,
    ) -> (r: DataValue)
        ensures
            r@ == Data::Object(seq![(k1@, v1@), (k2@, v2@), (k3@, v3@), (k4@, v4@)]),
    {
        let mut es: Vec<(String, DataValue)> = Vec::new();
        es.push((k1.to_owned(), v1));
        es.push((k2.to_owned(), v2));
        es.push((k3.to_owned(), v3));
        es.push((k4.to_owned(), v4));
        let r = DataValue::Object(es);
        assert(r@->Object_0 =~= seq![(k1@, v1@), (k2@, v2@), (k3@, v3@), (k4@, v4@)]);
        r
    }

    /// The string value of an owned string.
    pub fn string(s: String) -> (r: DataValue)
        ensures
            r@ == Data::Str(s@),
    {
        DataValue::Str(s)
    }

    /// A one-item list.
    pub fn list1(v: DataValue) -> (r: DataValue)
        ensures
            r@ == Data::List(seq![v@]),
    {
        let mut items: Vec<DataValue> = Vec::new();
        items.push(v);
        let r = DataValue::List(items);
        assert(r@->List_0 =~= seq![v@]);
        r
    }
}

/// Adds an entry to an object's entries.
pub fn push_entry(es: &mut Vec<(String, DataValue)>, k: &str, v: DataValue)
    ensures
        pairs_view(final(es)@) == pairs_view(old(es)@).push((k@, v@)),
{
    let ghost prev = es@;
    let e = (k.to_owned(), v);
    es.push(e);
    assert(pairs_view(es@) =~= pairs_view(prev).push((k@, e.1@)));
}

/// Adds a value to a list.
pub fn push_value(items: &mut Vec<DataValue>, v: DataValue)
    ensures
        views(final(items)@) == views(old(items)@).push(v@),
{
    let ghost prev = items@;
    let ghost vv = v@;
    items.push(v);
    assert(views(items@) =~= views(prev).push(vv));
}

} // verus!

verus! {

/// A YAML document as the YAML parser reads it: mapping keys are nodes too.
pub enum YamlNode {
    Null,
    Bool(bool),
    Number(DataNumber),
    Str(String),
    List(Vec<YamlNode>),
    Mapping(Vec<(YamlNode, YamlNode)>),
}

/// The mathematical view of a YAML node.
pub enum Yaml {
    Null,
    Bool(bool),
    Num(NumView),
    Str(Seq<char>),
    List(Seq<Yaml>),
    Mapping(Seq<(Yaml, Yaml)>),
}

pub open spec fn yaml_of(n: YamlNode) -> Yaml
    decreases n,
{
    match n {
        YamlNode::Null => Yaml::Null,
        YamlNode::Bool(b) => Yaml::Bool(b),
        YamlNode::Number(x) => Yaml::Num(NumView { as_u64: x.as_u64, as_i64: x.as_i64, text: x.text@ }),
        YamlNode::Str(s) => Yaml::Str(s@),
        YamlNode::List(items) => Yaml::List(
            Seq::new(
                items@.len(),
                |i: int| if 0 <= i < items@.len() { yaml_of(items@[i]) } else { Yaml::Null },
            ),
        ),
        YamlNode::Mapping(es) => Yaml::Mapping(
            Seq::new(
                es@.len(),
                |i: int|
                    if 0 <= i < es@.len() {
                        (yaml_of(es@[i].0), yaml_of(es@[i].1))
                    } else {
                        (Yaml::Null, Yaml::Null)
                    },
            ),
        ),
    }
}

impl View for YamlNode {
    type V = Yaml;

    open spec fn view(&self) -> Yaml {
        yaml_of(*self)
    }
}

/// The document a YAML node reads as. A mapping keeps its entries under
/// string keys, in order; an entry under any other key is left out, as no
/// lookup by name reaches it.
pub open spec fn yaml_data(y: Yaml) -> Data
    decreases y, 0int,
{
    match y {
        Yaml::Null => Data::Null,
        Yaml::Bool(b) => Data::Bool(b),
        Yaml::Num(n) => Data::Num(n),
        Yaml::Str(s) => Data::Str(s),
        Yaml::List(items) => Data::List(
            Seq::new(items.len(), |i: int| if 0 <= i < items.len() { yaml_data(items[i]) } else { Data::Null }),
        ),
        Yaml::Mapping(es) => Data::Object(yaml_entries(es, es.len() as int)),
    }
}

/// The string-keyed entries among the first `n` entries of a mapping.
pub open spec fn yaml_entries(es: Seq<(Yaml, Yaml)>, n: int) -> Seq<(Seq<char>, Data)>
    decreases es, n,
{
    if n <= 0 || n > es.len() {
        Seq::empty()
    } else {
        let rest = yaml_entries(es, n - 1);
        proof {
            assert(decreases_to!(es => es[n - 1]));
            assert(decreases_to!(es[n - 1] => es[n - 1].1));
        }
        match es[n - 1].0 {
            Yaml::Str(k) => rest.push((k, yaml_data(es[n - 1].1))),
            _ => rest,
        }
    }
}

/// What a YAML text reads as, as a document.
pub open spec fn yaml_doc(text: Seq<char>) -> Option<Data> {
    match yaml_parse(text) {
        Some(y) => Some(yaml_data(y)),
        None => None,
    }
}

/// The document a YAML node reads as.
pub fn yaml_to_data(n: &YamlNode) -> (r: DataValue)
    ensures
        r@ == yaml_data(n@),
    decreases n,
{
    match n {
        YamlNode::Null => DataValue::Null,
        YamlNode::Bool(b) => DataValue::Bool(*b),
        YamlNode::Number(x) => DataValue::Number(
            DataNumber { as_u64: x.as_u64, as_i64: x.as_i64, text: x.text.clone() },
        ),
        YamlNode::Str(s) => DataValue::Str(s.clone()),
        YamlNode::List(items) => {
            let ghost yv = n@->List_0;
            let mut out: Vec<DataValue> = Vec::new();
            let mut i: usize = 0;
            while i < items.len()
                invariant
                    *n == YamlNode::List(*items),
                    yv == n@->List_0,
                    i <= items@.len(),
                    out@.len() == i,
                    forall|j: int| 0 <= j < i ==> (#[trigger] out@[j])@ == yaml_data(yv[j]),
                decreases items@.len() - i,
            {
                proof {
                    vstd::std_specs::vec::axiom_vec_index_decreases(*items, i as int);
                    assert(decreases_to!(*n => (*n)->List_0));
                    assert(decreases_to!(*items => items[i as int]));
                    assert(yv[i as int] == items@[i as int]@);
                }
                let c = yaml_to_data(&items[i]);
                out.push(c);
                i = i + 1;
            }
            let r = DataValue::List(out);
            assert(r@->List_0 =~= yaml_data(n@)->List_0);
            r
        },
        YamlNode::Mapping(es) => {
            let ghost ev = n@->Mapping_0;
            let mut out: Vec<(String, DataValue)> = Vec::new();
            let mut i: usize = 0;
            while i < es.len()
                invariant
                    *n == YamlNode::Mapping(*es),
                    ev == n@->Mapping_0,
                    ev.len() == es@.len(),
                    i <= es@.len(),
                    pairs_view(out@) == yaml_entries(ev, i as int),
                decreases es@.len() - i,
            {
                proof {
                    vstd::std_specs::vec::axiom_vec_index_decreases(*es, i as int);
                    assert(decreases_to!(*n => (*n)->Mapping_0));
                    assert(decreases_to!(*es => es[i as int]));
                    assert(decreases_to!(es[i as int] => es[i as int].1));
                    assert(ev[i as int] == (es@[i as int].0@, es@[i as int].1@));
                }
                match &es[i].0 {
                    YamlNode::Str(k) => {
                        let v = yaml_to_data(&es[i].1);
                        push_entry(&mut out, k.as_str(), v);
                    },
                    _ => {},
                }
                i = i + 1;
            }
            DataValue::object(out)
        },
    }
}

/// Parses a YAML text into a document.
pub fn parse_yaml(text: &str) -> (r: Option<DataValue>)
    ensures
        opt_view(r) == yaml_doc(text@),
{
    match read_yaml(text) {
        Some(n) => Some(yaml_to_data(&n)),
        None => None,
    }
}

} // verus!
