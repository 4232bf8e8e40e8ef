use vstd::prelude::*;
use crate::properties::configuration_error::{ConfigurationError, ConfigurationErrorView, Shape};
use crate::properties::path::{
    lemma_split_path_non_empty, lemma_split_path_of_joined, parse, split_path, texts,
    well_formed,
};

verus! {

/// A value at a leaf of the configuration tree.
#[derive(Debug, PartialEq)]
pub enum Scalar {
    Boolean(bool),
    Integer(i64),
    Text(String),
}

/// A scalar as a mathematical value.
pub enum ScalarView {
    Boolean(bool),
    Integer(i64),
    Text(Seq<char>),
}

impl View for Scalar {
    type V = ScalarView;

    open spec fn view(&self) -> ScalarView {
        match self {
            Scalar::Boolean(b) => ScalarView::Boolean(*b),
            Scalar::Integer(i) => ScalarView::Integer(*i),
            Scalar::Text(t) => ScalarView::Text(t@),
        }
    }
}

impl Clone for Scalar {
    fn clone(&self) -> (copy: Scalar)
        ensures
            copy@ == self@,
    {
        match self {
            Scalar::Boolean(b) => Scalar::Boolean(*b),
            Scalar::Integer(i) => Scalar::Integer(*i),
            Scalar::Text(t) => Scalar::Text(t.clone()),
        }
    }
}

/// A value of the tree as a mathematical value: a scalar, or a map from
/// keys to values.
pub enum ValueView {
    Scalar(ScalarView),
    Node(Map<Seq<char>, ValueView>),
}

/// A value of the configuration tree: a scalar or a nested node.
#[derive(Debug)]
pub enum ConfigValue {
    Scalar(Scalar),
    Node(ConfigNode),
}

/// A node of the configuration tree: keys with their values, each key once.
#[derive(Debug)]
pub struct ConfigNode {
    entries: Entries,
}

#[derive(Debug)]
enum Entries {
    Nil,
    Cons(String, Box<ConfigValue>, Box<Entries>),
}

impl Entries {
    spec fn held(self) -> Map<Seq<char>, ValueView>
        decreases self,
    {
        match self {
            Entries::Nil => Map::empty(),
            Entries::Cons(key, value, rest) => rest.held().insert(key@, value.shown()),
        }
    }

    spec fn distinct(self) -> bool
        decreases self,
    {
        match self {
            Entries::Nil => true,
            Entries::Cons(key, value, rest) => !rest.held().contains_key(key@) && rest.distinct(),
        }
    }

    fn find(&self, key: &String) -> (value: Option<&ConfigValue>)
        ensures
            match value {
                Some(v) => self.held().contains_key(key@) && self.held()[key@] == v.shown(),
                None => !self.held().contains_key(key@),
            },
        decreases self,
    {
        match self {
            Entries::Nil => None,
            Entries::Cons(k, v, rest) => {
                if *k == *key {
                    Some(&**v)
                } else {
                    rest.find(key)
                }
            },
        }
    }

    fn put(self, key: String, value: ConfigValue) -> (entries: Entries)
        ensures
            entries.held() == self.held().insert(key@, value.shown()),
            self.distinct() ==> entries.distinct(),
        decreases self,
    {
        match self {
            Entries::Nil => Entries::Cons(key, Box::new(value), Box::new(Entries::Nil)),
            Entries::Cons(k, v, rest) => {
                if k == key {
                    let entries = Entries::Cons(k, Box::new(value), rest);
                    assert(entries.held() =~= self.held().insert(key@, value.shown()));
                    entries
                } else {
                    let ghost before = rest.held();
                    let ghost shown = v.shown();
                    let tail = (*rest).put(key, value);
                    let entries = Entries::Cons(k, v, Box::new(tail));
                    assert(entries.held() =~= before.insert(k@, shown).insert(
                        key@,
                        value.shown(),
                    ));
                    entries
                }
            },
        }
    }

    fn keys(&self) -> (keys: Vec<String>)
        ensures
            forall|k: Seq<char>| self.held().contains_key(k) <==> texts(keys@).contains(k),
            self.distinct() ==> texts(keys@).no_duplicates(),
        decreases self,
    {
        match self {
            Entries::Nil => {
                let keys: Vec<String> = Vec::new();
                assert(texts(keys@) =~= Seq::<Seq<char>>::empty());
                keys
            },
            Entries::Cons(key, _, rest) => {
                let mut keys = rest.keys();
                let ghost before = texts(keys@);
                let name = key.clone();
                keys.push(name);
                proof {
                    assert(texts(keys@) =~= before.push(key@));
                    assert forall|k: Seq<char>| self.held().contains_key(k) implies texts(
                        keys@,
                    ).contains(k) by {
                        if k == key@ {
                            assert(texts(keys@)[before.len() as int] == k);
                        } else {
                            assert(before.contains(k));
                            let i = choose|i: int| 0 <= i < before.len() && before[i] == k;
                            assert(texts(keys@)[i] == k);
                        }
                    }
                    assert forall|k: Seq<char>| texts(keys@).contains(k) implies self.held()
                        .contains_key(k) by {
                        let i = choose|i: int| 0 <= i < texts(keys@).len() && texts(keys@)[i] == k;
                        if i < before.len() {
                            assert(before[i] == k);
                            assert(before.contains(k));
                        }
                    }
                    if self.distinct() {
                        assert forall|i: int, j: int|
                            0 <= i < texts(keys@).len() && 0 <= j < texts(keys@).len() && i
                                != j implies texts(keys@)[i] != texts(keys@)[j] by {
                            if i < before.len() && j < before.len() {
                            } else if i < before.len() {
                                assert(before.contains(before[i]));
                            } else {
                                assert(before.contains(before[j]));
                            }
                        }
                    }
                }
                keys
            },
        }
    }

    fn duplicate(&self) -> (copy: Entries)
        ensures
            copy.held() == self.held(),
            self.distinct() ==> copy.distinct(),
        decreases self,
    {
        match self {
            Entries::Nil => Entries::Nil,
            Entries::Cons(k, v, rest) => {
                Entries::Cons(k.clone(), Box::new(v.duplicate()), Box::new(rest.duplicate()))
            },
        }
    }
}

impl ConfigValue {
    /// What the value holds.
    pub open spec fn shown(self) -> ValueView
        decreases self,
    {
        match self {
            ConfigValue::Scalar(s) => ValueView::Scalar(s@),
            ConfigValue::Node(n) => ValueView::Node(n.held()),
        }
    }

    /// A copy that shares nothing with this value.
    pub fn duplicate(&self) -> (copy: ConfigValue)
        ensures
            copy@ == self@,
        decreases self,
    {
        match self {
            ConfigValue::Scalar(s) => ConfigValue::Scalar(s.clone()),
            ConfigValue::Node(n) => ConfigValue::Node(n.duplicate()),
        }
    }

    /// The scalar, where the value is one.
    pub fn as_scalar(&self) -> (scalar: Option<&Scalar>)
        ensures
            match scalar {
                Some(s) => self@ == ValueView::Scalar(s@),
                None => self@ is Node,
            },
    {
        match self {
            ConfigValue::Scalar(s) => Some(s),
            ConfigValue::Node(_) => None,
        }
    }

    /// The node, where the value is one.
    pub fn as_node(&self) -> (node: Option<&ConfigNode>)
        ensures
            match node {
                Some(n) => self@ == ValueView::Node(n@),
                None => self@ is Scalar,
            },
    {
        match self {
            ConfigValue::Scalar(_) => None,
            ConfigValue::Node(n) => Some(n),
        }
    }
}

impl View for ConfigValue {
    type V = ValueView;

    open spec fn view(&self) -> ValueView {
        self.shown()
    }
}

impl View for ConfigNode {
    type V = Map<Seq<char>, ValueView>;

    open spec fn view(&self) -> Map<Seq<char>, ValueView> {
        self.held()
    }
}

/// Follows `path`, segment by segment, from `node`, and gives the value that
/// it names, if it names one. Each segment is looked up in the node that the
/// segments before it lead to, and nowhere else. A path names nothing where
/// one of its segments is absent, and where a scalar stands before its end.
pub open spec fn resolve(node: Map<Seq<char>, ValueView>, path: Seq<Seq<char>>) -> Option<
    ValueView,
>
    decreases path.len(),
{
    if path.len() == 0 || !node.contains_key(path[0]) {
        None
    } else if path.len() == 1 {
        Some(node[path[0]])
    } else {
        match node[path[0]] {
            ValueView::Scalar(_) => None,
            ValueView::Node(child) => resolve(child, path.drop_first()),
        }
    }
}

/// What `get` answers for a dotted path: the value that the path names,
/// `NotFound` where it names nothing, and `InvalidPath` where it is not well
/// formed.
pub open spec fn looked_up(node: Map<Seq<char>, ValueView>, path: Seq<char>) -> Result<
    ValueView,
    ConfigurationErrorView,
> {
    if !well_formed(path) {
        Err(ConfigurationErrorView::InvalidPath(path))
    } else {
        match resolve(node, split_path(path)) {
            Some(value) => Ok(value),
            None => Err(ConfigurationErrorView::NotFound(path)),
        }
    }
}

/// What `sub_view` answers for a dotted path.
pub open spec fn sub_tree(node: Map<Seq<char>, ValueView>, path: Seq<char>) -> Result<
    Map<Seq<char>, ValueView>,
    ConfigurationErrorView,
> {
    match looked_up(node, path) {
        Ok(ValueView::Node(child)) => Ok(child),
        Ok(ValueView::Scalar(_)) => Err(
            ConfigurationErrorView::TypeMismatch { key: path, expected: Shape::Node },
        ),
        Err(e) => Err(e),
    }
}

/// What `get_scalar` answers for a dotted path.
pub open spec fn scalar_at(node: Map<Seq<char>, ValueView>, path: Seq<char>) -> Result<
    ScalarView,
    ConfigurationErrorView,
> {
    match looked_up(node, path) {
        Ok(ValueView::Scalar(s)) => Ok(s),
        Ok(ValueView::Node(_)) => Err(
            ConfigurationErrorView::TypeMismatch { key: path, expected: Shape::Leaf },
        ),
        Err(e) => Err(e),
    }
}

impl ConfigNode {
    #[verifier::type_invariant]
    spec fn keys_are_distinct(self) -> bool {
        self.entries.distinct()
    }

    /// The entries of the node: each key with the value under it.
    pub closed spec fn held(self) -> Map<Seq<char>, ValueView>
        decreases self,
    {
        self.entries.held()
    }

    /// A node without entries.
    pub fn new() -> (node: ConfigNode)
        ensures
            node@ == Map::<Seq<char>, ValueView>::empty(),
    {
        ConfigNode { entries: Entries::Nil }
    }

    /// Puts `value` under `key`, in place of what stood there.
    pub fn insert(&mut self, key: String, value: ConfigValue)
        ensures
            final(self)@ == old(self)@.insert(key@, value@),
    {
        proof {
            use_type_invariant(&*self);
        }
        let mut entries = Entries::Nil;
        std::mem::swap(&mut self.entries, &mut entries);
        self.entries = entries.put(key, value);
    }

    /// The value under `key` in this node itself.
    pub fn child(&self, key: &String) -> (value: Option<&ConfigValue>)
        ensures
            match value {
                Some(v) => self@.contains_key(key@) && self@[key@] == v@,
                None => !self@.contains_key(key@),
            },
    {
        self.entries.find(key)
    }

    /// The keys of this node itself, each once.
    pub fn keys(&self) -> (keys: Vec<String>)
        ensures
            forall|k: Seq<char>| self@.contains_key(k) <==> texts(keys@).contains(k),
            texts(keys@).no_duplicates(),
    {
        proof {
            use_type_invariant(self);
        }
        self.entries.keys()
    }

    /// A copy that shares nothing with this node.
    pub fn duplicate(&self) -> (copy: ConfigNode)
        ensures
            copy@ == self@,
        decreases self,
    {
        proof {
            use_type_invariant(self);
        }
        ConfigNode { entries: self.entries.duplicate() }
    }

    /// Resolves a dotted path. Fails with `InvalidPath` where the path is
    /// not well formed, and with `NotFound` where it names nothing: where a
    /// segment is absent, or a scalar stands before the path has ended.
    pub fn get(&self, path: &str) -> (found: Result<&ConfigValue, ConfigurationError>)
        ensures
            match found {
                Ok(value) => looked_up(self@, path@) == Ok::<ValueView, ConfigurationErrorView>(
                    value@,
                ),
                Err(e) => looked_up(self@, path@) == Err::<ValueView, ConfigurationErrorView>(e@),
            },
    {
        let parts = match parse(path) {
            Some(parts) => parts,
            None => {
                return Err(ConfigurationError::InvalidPath(String::from_str(path)));
            },
        };
        let ghost names = texts(parts@);
        let mut current: &ConfigNode = self;
        let mut i: usize = 0;
        proof {
            assert(names.skip(0) =~= names);
        }
        while i + 1 < parts.len()
            invariant
                i < parts.len(),
                names == texts(parts@),
                names == split_path(path@),
                well_formed(path@),
                resolve(self@, names) == resolve(current@, names.skip(i as int)),
            decreases parts.len() - i,
        {
            proof {
                assert(names.skip(i as int)[0] == parts@[i as int]@);
                assert(names.skip(i as int).drop_first() =~= names.skip(i + 1));
            }
            match current.child(&parts[i]) {
                None => {
                    return Err(ConfigurationError::NotFound(String::from_str(path)));
                },
                Some(value) => match value {
                    ConfigValue::Scalar(_) => {
                        return Err(ConfigurationError::NotFound(String::from_str(path)));
                    },
                    ConfigValue::Node(next) => {
                        current = next;
                    },
                },
            }
            i += 1;
        }
        proof {
            assert(names.skip(i as int)[0] == parts@[i as int]@);
            assert(names.skip(i as int).len() == 1);
        }
        match current.child(&parts[i]) {
            None => Err(ConfigurationError::NotFound(String::from_str(path))),
            Some(value) => Ok(value),
        }
    }

    /// An independent copy of the subtree that `prefix` names. Fails as `get`
    /// does, and with `TypeMismatch` where `prefix` names a scalar.
    pub fn sub_view(&self, prefix: &str) -> (sub: Result<ConfigNode, ConfigurationError>)
        ensures
            match sub {
                Ok(node) => sub_tree(self@, prefix@) == Ok::<
                    Map<Seq<char>, ValueView>,
                    ConfigurationErrorView,
                >(node@),
                Err(e) => sub_tree(self@, prefix@) == Err::<
                    Map<Seq<char>, ValueView>,
                    ConfigurationErrorView,
                >(e@),
            },
    {
        match self.get(prefix) {
            Err(e) => Err(e),
            Ok(value) => match value {
                ConfigValue::Node(node) => Ok(node.duplicate()),
                ConfigValue::Scalar(_) => Err(
                    ConfigurationError::TypeMismatch {
                        key: String::from_str(prefix),
                        expected: Shape::Node,
                    },
                ),
            },
        }
    }

    /// The scalar that `path` names. Fails as `get` does, and with
    /// `TypeMismatch` where `path` names a node.
    pub fn get_scalar(&self, path: &str) -> (found: Result<&Scalar, ConfigurationError>)
        ensures
            match found {
                Ok(scalar) => scalar_at(self@, path@) == Ok::<ScalarView, ConfigurationErrorView>(
                    scalar@,
                ),
                Err(e) => scalar_at(self@, path@) == Err::<ScalarView, ConfigurationErrorView>(e@),
            },
    {
        match self.get(path) {
            Err(e) => Err(e),
            Ok(value) => match value {
                ConfigValue::Scalar(scalar) => Ok(scalar),
                ConfigValue::Node(_) => Err(
                    ConfigurationError::TypeMismatch {
                        key: String::from_str(path),
                        expected: Shape::Leaf,
                    },
                ),
            },
        }
    }
}

/// How the kind of a scalar is called in a message.
pub open spec fn kind_name(scalar: ScalarView) -> Seq<char> {
    match scalar {
        ScalarView::Boolean(_) => "a boolean"@,
        ScalarView::Integer(_) => "an integer"@,
        ScalarView::Text(_) => "a string"@,
    }
}

/// The error for a scalar under `path` that is not of the kind asked for.
pub open spec fn wrong_kind(path: Seq<char>, expected: Seq<char>, actual: ScalarView)
    -> ConfigurationErrorView {
    ConfigurationErrorView::DeserializationError {
        origin: None,
        key: Some(path),
        expected,
        actual: kind_name(actual),
    }
}

/// What `get_text` answers for a dotted path.
pub open spec fn text_at(node: Map<Seq<char>, ValueView>, path: Seq<char>) -> Result<
    Seq<char>,
    ConfigurationErrorView,
> {
    match scalar_at(node, path) {
        Ok(ScalarView::Text(t)) => Ok(t),
        Ok(other) => Err(wrong_kind(path, "a string"@, other)),
        Err(e) => Err(e),
    }
}

/// What `get_integer` answers for a dotted path.
pub open spec fn integer_at(node: Map<Seq<char>, ValueView>, path: Seq<char>) -> Result<
    i64,
    ConfigurationErrorView,
> {
    match scalar_at(node, path) {
        Ok(ScalarView::Integer(i)) => Ok(i),
        Ok(other) => Err(wrong_kind(path, "an integer"@, other)),
        Err(e) => Err(e),
    }
}

/// What `get_boolean` answers for a dotted path.
pub open spec fn boolean_at(node: Map<Seq<char>, ValueView>, path: Seq<char>) -> Result<
    bool,
    ConfigurationErrorView,
> {
    match scalar_at(node, path) {
        Ok(ScalarView::Boolean(b)) => Ok(b),
        Ok(other) => Err(wrong_kind(path, "a boolean"@, other)),
        Err(e) => Err(e),
    }
}

impl Scalar {
    /// The name of the scalar's kind in a message.
    pub fn kind(&self) -> (name: &'static str)
        ensures
            name@ == kind_name(self@),
    {
        match self {
            Scalar::Boolean(_) => "a boolean",
            Scalar::Integer(_) => "an integer",
            Scalar::Text(_) => "a string",
        }
    }

    fn unexpected(&self, path: &str, expected: &'static str) -> (error: ConfigurationError)
        ensures
            error@ == wrong_kind(path@, expected@, self@),
    {
        ConfigurationError::DeserializationError {
            origin: None,
            key: Some(String::from_str(path)),
            expected: String::from_str(expected),
            actual: String::from_str(self.kind()),
        }
    }
}

impl ConfigNode {
    /// The text that `path` names. Fails as `get_scalar` does, and with
    /// `DeserializationError` where the scalar is no text.
    pub fn get_text(&self, path: &str) -> (found: Result<String, ConfigurationError>)
        ensures
            match found {
                Ok(text) => text_at(self@, path@) == Ok::<Seq<char>, ConfigurationErrorView>(text@),
                Err(e) => text_at(self@, path@) == Err::<Seq<char>, ConfigurationErrorView>(e@),
            },
    {
        match self.get_scalar(path) {
            Err(e) => Err(e),
            Ok(scalar) => match scalar {
                Scalar::Text(text) => Ok(text.clone()),
                _ => Err(scalar.unexpected(path, "a string")),
            },
        }
    }

    /// The integer that `path` names. Fails as `get_scalar` does, and with
    /// `DeserializationError` where the scalar is no integer.
    pub fn get_integer(&self, path: &str) -> (found: Result<i64, ConfigurationError>)
        ensures
            match found {
                Ok(i) => integer_at(self@, path@) == Ok::<i64, ConfigurationErrorView>(i),
                Err(e) => integer_at(self@, path@) == Err::<i64, ConfigurationErrorView>(e@),
            },
    {
        match self.get_scalar(path) {
            Err(e) => Err(e),
            Ok(scalar) => match scalar {
                Scalar::Integer(i) => Ok(*i),
                _ => Err(scalar.unexpected(path, "an integer")),
            },
        }
    }

    /// The boolean that `path` names. Fails as `get_scalar` does, and with
    /// `DeserializationError` where the scalar is no boolean.
    pub fn get_boolean(&self, path: &str) -> (found: Result<bool, ConfigurationError>)
        ensures
            match found {
                Ok(b) => boolean_at(self@, path@) == Ok::<bool, ConfigurationErrorView>(b),
                Err(e) => boolean_at(self@, path@) == Err::<bool, ConfigurationErrorView>(e@),
            },
    {
        match self.get_scalar(path) {
            Err(e) => Err(e),
            Ok(scalar) => match scalar {
                Scalar::Boolean(b) => Ok(*b),
                _ => Err(scalar.unexpected(path, "a boolean")),
            },
        }
    }
}

impl Clone for ConfigValue {
    fn clone(&self) -> (copy: ConfigValue)
        ensures
            copy@ == self@,
    {
        self.duplicate()
    }
}

impl Clone for ConfigNode {
    fn clone(&self) -> (copy: ConfigNode)
        ensures
            copy@ == self@,
    {
        self.duplicate()
    }
}

/// What is read from a sub-view is what stood in the tree when the sub-view
/// was taken: following `rest` from the subtree under `prefix` leads to what
/// following `prefix` and then `rest` led to in `tree`. The sub-view is a
/// value of its own; what the tree becomes later has no part in it.
pub proof fn lemma_sub_view_is_a_snapshot(
    tree: Map<Seq<char>, ValueView>,
    prefix: Seq<Seq<char>>,
    rest: Seq<Seq<char>>,
    sub: Map<Seq<char>, ValueView>,
)
    requires
        resolve(tree, prefix) == Some(ValueView::Node(sub)),
        rest.len() >= 1,
    ensures
        resolve(sub, rest) == resolve(tree, prefix + rest),
    decreases prefix.len(),
{
    if prefix.len() == 0 {
    } else if prefix.len() == 1 {
        assert((prefix + rest).drop_first() =~= rest);
    } else {
        assert((prefix + rest).drop_first() =~= prefix.drop_first() + rest);
        match tree[prefix[0]] {
            ValueView::Scalar(_) => {},
            ValueView::Node(child) => {
                lemma_sub_view_is_a_snapshot(child, prefix.drop_first(), rest, sub);
            },
        }
    }
}

/// The same for dotted paths: what `rest` leads to in the sub-view taken
/// under `prefix` is what `prefix`, a dot and `rest` led to in the tree.
pub proof fn lemma_sub_view_reads_what_the_tree_held(
    tree: Map<Seq<char>, ValueView>,
    prefix: Seq<char>,
    rest: Seq<char>,
    sub: Map<Seq<char>, ValueView>,
)
    requires
        sub_tree(tree, prefix) == Ok::<Map<Seq<char>, ValueView>, ConfigurationErrorView>(sub),
    ensures
        resolve(sub, split_path(rest)) == resolve(tree, split_path(prefix + seq!['.'] + rest)),
{
    lemma_split_path_non_empty(rest);
    lemma_split_path_of_joined(prefix, rest);
    lemma_sub_view_is_a_snapshot(tree, split_path(prefix), split_path(rest), sub);
}

/// A path is looked up under its first segment and nowhere else: what it
/// leads to does not depend on what stands under any other key of the node.
pub proof fn lemma_resolve_ignores_siblings(
    node: Map<Seq<char>, ValueView>,
    sibling: Seq<char>,
    value: ValueView,
    path: Seq<Seq<char>>,
)
    requires
        path.len() >= 1,
        path[0] != sibling,
    ensures
        resolve(node.insert(sibling, value), path) == resolve(node, path),
        resolve(node.remove(sibling), path) == resolve(node, path),
{
}

} // verus!
