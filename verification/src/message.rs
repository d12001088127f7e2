//! Messages: the immutable input of the correlation engine.
//!
//! A message has an identifier, an optional name and a mapping from keys to
//! values. The mapping is stored as a list of pairs; what it means is given by
//! [`pairs_map`], and every contract speaks of that meaning only.
use vstd::prelude::*;
use vstd::std_specs::cmp::PartialEqSpecImpl;

verus! {

/// A message as plain mathematical values.
pub struct MessageView {
    pub uuid: Seq<char>,
    pub name: Option<Seq<char>>,
    pub values: Map<Seq<char>, Seq<char>>,
}

/// The text of an optional string.
pub open spec fn opt_text(name: Option<String>) -> Option<Seq<char>> {
    match name {
        Some(text) => Some(text@),
        None => None,
    }
}

/// The mapping that a list of pairs stands for. The pairs are entered one
/// after the other, so the last pair with a given key decides its value.
pub open spec fn pairs_map(pairs: Seq<(String, String)>) -> Map<Seq<char>, Seq<char>>
    decreases pairs.len(),
{
    if pairs.len() == 0 {
        Map::empty()
    } else {
        pairs_map(pairs.drop_last()).insert(pairs.last().0@, pairs.last().1@)
    }
}

/// Appending a pair enters it into the mapping.
pub proof fn lemma_pairs_map_push(pairs: Seq<(String, String)>, pair: (String, String))
    ensures
        pairs_map(pairs.push(pair)) == pairs_map(pairs).insert(pair.0@, pair.1@),
{
    assert(pairs.push(pair).drop_last() =~= pairs);
}

/// A key is in the mapping exactly when some pair carries it.
pub proof fn lemma_pairs_map_keys(pairs: Seq<(String, String)>, key: Seq<char>)
    ensures
        pairs_map(pairs).contains_key(key) <==> exists|i: int|
            0 <= i < pairs.len() && (#[trigger] pairs[i]).0@ == key,
    decreases pairs.len(),
{
    if pairs.len() > 0 {
        let front = pairs.drop_last();
        lemma_pairs_map_keys(front, key);
        if pairs_map(pairs).contains_key(key) {
            if pairs.last().0@ == key {
                assert(pairs[pairs.len() - 1].0@ == key);
            } else {
                let i = choose|i: int| 0 <= i < front.len() && (#[trigger] front[i]).0@ == key;
                assert(pairs[i].0@ == key);
            }
        }
        if exists|i: int| 0 <= i < pairs.len() && (#[trigger] pairs[i]).0@ == key {
            let i = choose|i: int| 0 <= i < pairs.len() && (#[trigger] pairs[i]).0@ == key;
            if i < pairs.len() - 1 {
                assert(front[i].0@ == key);
            }
        }
    }
}

/// Taking one pair out changes the mapping at that pair's key only.
pub proof fn lemma_pairs_map_remove(pairs: Seq<(String, String)>, at: int, key: Seq<char>)
    requires
        0 <= at < pairs.len(),
        key != pairs[at].0@,
    ensures
        pairs_map(pairs.remove(at)).contains_key(key) == pairs_map(pairs).contains_key(key),
        pairs_map(pairs.remove(at)).contains_key(key) ==> pairs_map(pairs.remove(at))[key]
            == pairs_map(pairs)[key],
    decreases pairs.len(),
{
    if at == pairs.len() - 1 {
        assert(pairs.remove(at) =~= pairs.drop_last());
    } else {
        let front = pairs.drop_last();
        lemma_pairs_map_remove(front, at, key);
        assert(pairs.remove(at).drop_last() =~= front.remove(at));
        assert(pairs.remove(at).last() == pairs.last());
    }
}

/// Whether no two pairs of a list carry the same key.
pub open spec fn distinct_keys(pairs: Seq<(String, String)>) -> bool {
    forall|i: int, j: int|
        0 <= i < j < pairs.len() ==> (#[trigger] pairs[i]).0@ != (#[trigger] pairs[j]).0@
}

/// One message of the stream. It does not change once it is built.
#[derive(Debug)]
pub struct Message {
    uuid: String,
    name: Option<String>,
    values: Vec<(String, String)>,
}

impl View for Message {
    type V = MessageView;

    closed spec fn view(&self) -> MessageView {
        MessageView {
            uuid: self.uuid@,
            name: opt_text(self.name),
            values: pairs_map(self.values@),
        }
    }
}

/// The position of the last pair of `pairs` that carries `key`, if there is one.
fn find_pair(pairs: &Vec<(String, String)>, key: &String) -> (found: Option<usize>)
    ensures
        match found {
            Some(at) => at < pairs.len() && pairs[at as int].0@ == key@ && pairs_map(pairs@)[key@]
                == pairs[at as int].1@ && pairs_map(pairs@).contains_key(key@),
            None => !pairs_map(pairs@).contains_key(key@),
        },
{
    let mut i: usize = pairs.len();
    proof {
        assert(pairs@.take(i as int) =~= pairs@);
    }
    while i > 0
        invariant
            i <= pairs.len(),
            pairs_map(pairs@).contains_key(key@) == pairs_map(pairs@.take(i as int)).contains_key(
                key@,
            ),
            pairs_map(pairs@).contains_key(key@) ==> pairs_map(pairs@)[key@] == pairs_map(
                pairs@.take(i as int),
            )[key@],
        decreases i,
    {
        proof {
            assert(pairs@.take(i as int).drop_last() =~= pairs@.take(i - 1));
            assert(pairs@.take(i as int).last() == pairs[i - 1]);
        }
        i = i - 1;
        if pairs[i].0 == *key {
            return Some(i);
        }
    }
    proof {
        assert(pairs@.take(0).len() == 0);
    }
    None
}

/// Sets the value of `key` in a list of pairs: a pair that carries the key
/// leaves, and the new pair comes last. A list in which no key stood twice
/// stays so.
pub fn set_pair(pairs: &mut Vec<(String, String)>, key: String, value: String)
    ensures
        pairs_map(final(pairs)@) == pairs_map(old(pairs)@).insert(key@, value@),
        distinct_keys(old(pairs)@) ==> distinct_keys(final(pairs)@),
{
    let ghost before = pairs@;
    let found = find_pair(pairs, &key);
    match found {
        Some(at) => {
            pairs.remove(at);
        },
        None => {},
    }
    proof {
        let kept = pairs@;
        let after = kept.push((key, value));
        let target = pairs_map(before).insert(key@, value@);
        let result = pairs_map(after);
        lemma_pairs_map_push(kept, (key, value));
        assert forall|other: Seq<char>|
            #![trigger result.dom().contains(other)]
            #![trigger target.dom().contains(other)]
            result.dom().contains(other) == target.dom().contains(other) && (
            result.dom().contains(other) ==> result[other] == target[other]) by {
            if other != key@ {
                if let Some(at) = found {
                    lemma_pairs_map_remove(before, at as int, other);
                }
            }
        }
        assert(result =~= target);
        if distinct_keys(before) {
            assert forall|i: int, j: int| 0 <= i < j < after.len() implies (#[trigger] after[i]).0@
                != (#[trigger] after[j]).0@ by {
                match found {
                    Some(at) => {
                        let bi = if i < at { i } else { i + 1 };
                        assert(after[i] == before[bi]);
                        if j < kept.len() {
                            let bj = if j < at { j } else { j + 1 };
                            assert(after[j] == before[bj]);
                        } else {
                            if bi < at {
                                assert(before[bi].0@ != before[at as int].0@);
                            } else {
                                assert(before[at as int].0@ != before[bi].0@);
                            }
                        }
                    },
                    None => {
                        assert(after[i] == before[i]);
                        if j < kept.len() {
                            assert(after[j] == before[j]);
                        } else {
                            lemma_pairs_map_keys(before, key@);
                        }
                    },
                }
            }
        }
    }
    pairs.push((key, value));
}

/// The same pairs with every key once: of the pairs that carry one key, the
/// last stays.
pub fn distinct_pairs(pairs: Vec<(String, String)>) -> (kept: Vec<(String, String)>)
    ensures
        pairs_map(kept@) == pairs_map(pairs@),
        distinct_keys(kept@),
{
    let mut kept: Vec<(String, String)> = Vec::new();
    let ghost all = pairs@;
    for pair in iter: pairs
        invariant
            iter.seq() == all,
            pairs_map(kept@) == pairs_map(all.take(iter.index() as int)),
            distinct_keys(kept@),
    {
        proof {
            let done = iter.index() as int;
            assert(all.take(done + 1).drop_last() =~= all.take(done));
            assert(all.take(done + 1).last() == pair);
        }
        set_pair(&mut kept, pair.0, pair.1);
    }
    proof {
        assert(all.take(all.len() as int) =~= all);
    }
    kept
}

/// A copy of a list of pairs.
pub fn copy_pairs(pairs: &Vec<(String, String)>) -> (copy: Vec<(String, String)>)
    ensures
        copy@ == pairs@,
{
    let mut copy: Vec<(String, String)> = Vec::new();
    let mut i: usize = 0;
    while i < pairs.len()
        invariant
            i <= pairs.len(),
            copy@ == pairs@.take(i as int),
        decreases pairs.len() - i,
    {
        let key = pairs[i].0.clone();
        let value = pairs[i].1.clone();
        copy.push((key, value));
        proof {
            assert(pairs@.take(i + 1) =~= pairs@.take(i as int).push(pairs[i as int]));
        }
        i = i + 1;
    }
    proof {
        assert(pairs@.take(pairs.len() as int) =~= pairs@);
    }
    copy
}

/// A copy of an optional string.
pub fn copy_name(name: &Option<String>) -> (copy: Option<String>)
    ensures
        copy == *name,
{
    match name {
        Some(text) => Some(text.clone()),
        None => None,
    }
}

impl Message {
    /// No key stands twice among the stored pairs.
    #[verifier::type_invariant]
    spec fn keys_once(&self) -> bool {
        distinct_keys(self.values@)
    }

    /// A message with the given identifier, no name and no values.
    pub fn new(uuid: String) -> (message: Message)
        ensures
            message@ == (MessageView { uuid: uuid@, name: None, values: Map::empty() }),
    {
        Message { uuid, name: None, values: Vec::new() }
    }

    /// The identifier.
    pub fn uuid(&self) -> (uuid: &String)
        ensures
            uuid@ == self@.uuid,
    {
        &self.uuid
    }

    /// The name, if the message has one.
    pub fn name(&self) -> (name: Option<&String>)
        ensures
            match name {
                Some(text) => self@.name == Some(text@),
                None => self@.name is None,
            },
    {
        self.name.as_ref()
    }

    /// The value stored under `key`, if there is one.
    pub fn get(&self, key: &str) -> (value: Option<&String>)
        ensures
            match value {
                Some(text) => self@.values.contains_key(key@) && self@.values[key@] == text@,
                None => !self@.values.contains_key(key@),
            },
    {
        let wanted = key.to_owned();
        match find_pair(&self.values, &wanted) {
            Some(at) => Some(&self.values[at].1),
            None => None,
        }
    }

    /// The key/value pairs, each key once, in the order in which the keys
    /// were last set.
    pub fn values(&self) -> (pairs: &Vec<(String, String)>)
        ensures
            pairs_map(pairs@) == self@.values,
            distinct_keys(pairs@),
    {
        proof {
            use_type_invariant(self);
        }
        &self.values
    }

    /// Whether `pattern` names this message: it equals the identifier or the
    /// name.
    pub fn is_named(&self, pattern: &String) -> (named: bool)
        ensures
            named == names(self@, pattern@),
    {
        if self.uuid == *pattern {
            true
        } else {
            match &self.name {
                Some(name) => *name == *pattern,
                None => false,
            }
        }
    }

    /// A copy of this message.
    pub fn duplicate(&self) -> (copy: Message)
        ensures
            copy@ == self@,
    {
        proof {
            use_type_invariant(self);
        }
        Message {
            uuid: self.uuid.clone(),
            name: copy_name(&self.name),
            values: copy_pairs(&self.values),
        }
    }

    /// Whether both messages have the same identifier, the same name and the
    /// same values under the same keys.
    pub fn same_as(&self, other: &Message) -> (same: bool)
        ensures
            same == (self@ == other@),
    {
        if !(self.uuid == other.uuid) {
            return false;
        }
        let names_agree = match (&self.name, &other.name) {
            (Some(a), Some(b)) => *a == *b,
            (None, None) => true,
            _ => false,
        };
        if !names_agree {
            return false;
        }
        let forth = covered_by(&self.values, &other.values);
        let back = covered_by(&other.values, &self.values);
        proof {
            let a = pairs_map(self.values@);
            let b = pairs_map(other.values@);
            if forth && back {
                assert forall|key: Seq<char>| a.dom().contains(key) == b.dom().contains(key) by {
                    if a.dom().contains(key) {
                        assert(b.dom().contains(key));
                    }
                    if b.dom().contains(key) {
                        assert(a.dom().contains(key));
                    }
                }
                assert(a =~= b);
            }
        }
        forth && back
    }

    /// A message with the given identifier, name and key/value pairs. Where
    /// a key stands more than once among the pairs, its last pair holds its
    /// value.
    pub fn from_parts(uuid: String, name: Option<String>, values: Vec<(String, String)>) -> (message:
        Message)
        ensures
            message@ == (MessageView {
                uuid: uuid@,
                name: opt_text(name),
                values: pairs_map(values@),
            }),
    {
        Message { uuid, name, values: distinct_pairs(values) }
    }

    /// Puts a message together from the fields of its serialized form. The
    /// identifier is required; a missing name stays absent, and missing
    /// values are no values.
    pub fn from_fields(
        uuid: Option<String>,
        name: Option<String>,
        values: Option<Vec<(String, String)>>,
    ) -> (built: Result<Message, MissingField>)
        ensures
            match built {
                Ok(message) => uuid is Some && message@ == (MessageView {
                    uuid: uuid->0@,
                    name: opt_text(name),
                    values: match values {
                        Some(pairs) => pairs_map(pairs@),
                        None => Map::empty(),
                    },
                }),
                Err(missing) => uuid is None && missing == MissingField::Uuid,
            },
    {
        match uuid {
            None => Err(MissingField::Uuid),
            Some(uuid) => {
                let values = match values {
                    Some(pairs) => pairs,
                    None => Vec::new(),
                };
                Ok(Message::from_parts(uuid, name, values))
            },
        }
    }
}

/// Whether a message answers to a pattern: the pattern is its identifier or
/// its name.
pub open spec fn names(message: MessageView, pattern: Seq<char>) -> bool {
    message.uuid == pattern || message.name == Some(pattern)
}

/// Whether every key of `left` is a key of `right` with the same value.
fn covered_by(left: &Vec<(String, String)>, right: &Vec<(String, String)>) -> (covered: bool)
    ensures
        covered == pairs_map(left@).submap_of(pairs_map(right@)),
{
    let ghost here_map = pairs_map(left@);
    let ghost there_map = pairs_map(right@);
    let mut i: usize = 0;
    while i < left.len()
        invariant
            i <= left.len(),
            here_map == pairs_map(left@),
            there_map == pairs_map(right@),
            forall|j: int|
                0 <= j < i ==> there_map.contains_key((#[trigger] left@[j]).0@) && there_map[left@[j].0@]
                    == here_map[left@[j].0@],
        decreases left.len() - i,
    {
        let here = find_pair(left, &left[i].0);
        let there = find_pair(right, &left[i].0);
        proof {
            lemma_pairs_map_keys(left@, left@[i as int].0@);
            assert(here_map.contains_key(left@[i as int].0@));
        }
        let agree = match (here, there) {
            (Some(a), Some(b)) => left[a].1 == right[b].1,
            _ => false,
        };
        if !agree {
            proof {
                let key = left@[i as int].0@;
                assert(here_map.dom().contains(key));
                assert(!(there_map.dom().contains(key) && here_map[key] == there_map[key]));
            }
            return false;
        }
        i = i + 1;
    }
    proof {
        assert forall|key: Seq<char>| #[trigger] here_map.dom().contains(key) implies there_map.dom().contains(
            key,
        ) && here_map[key] == there_map[key] by {
            lemma_pairs_map_keys(left@, key);
            let j = choose|j: int| 0 <= j < left@.len() && (#[trigger] left@[j]).0@ == key;
            assert(there_map.contains_key(left@[j].0@));
        }
    }
    true
}

impl PartialEq for Message {
    fn eq(&self, other: &Message) -> (same: bool) {
        self.same_as(other)
    }
}

impl PartialEqSpecImpl for Message {
    open spec fn obeys_eq_spec() -> bool {
        true
    }

    open spec fn eq_spec(&self, other: &Message) -> bool {
        self@ == other@
    }
}

/// The field without which no message can be put together.
#[derive(Debug, PartialEq, Eq, Structural)]
pub enum MissingField {
    Uuid,
}

/// The fields of a message's serialized form.
#[derive(Debug, PartialEq, Eq, Structural)]
pub enum Field {
    Uuid,
    Name,
    Values,
}

impl Field {
    /// The field that is written under `name`, if there is one.
    pub fn from_name(name: &str) -> (field: Option<Field>)
        ensures
            field == if name@ == "name"@ {
                Some(Field::Name)
            } else if name@ == "uuid"@ {
                Some(Field::Uuid)
            } else if name@ == "values"@ {
                Some(Field::Values)
            } else {
                None
            },
    {
        let name = name.to_owned();
        if name == "name".to_owned() {
            Some(Field::Name)
        } else if name == "uuid".to_owned() {
            Some(Field::Uuid)
        } else if name == "values".to_owned() {
            Some(Field::Values)
        } else {
            None
        }
    }
}

/// Collects the parts of a message and builds it.
pub struct MessageBuilder {
    uuid: String,
    name: Option<String>,
    values: Vec<(String, String)>,
}

impl View for MessageBuilder {
    type V = MessageView;

    closed spec fn view(&self) -> MessageView {
        MessageView {
            uuid: self.uuid@,
            name: opt_text(self.name),
            values: pairs_map(self.values@),
        }
    }
}

impl MessageBuilder {
    /// No key stands twice among the collected pairs.
    #[verifier::type_invariant]
    spec fn keys_once(&self) -> bool {
        distinct_keys(self.values@)
    }

    /// Starts a message with the given identifier, no name and no values.
    pub fn new(uuid: &str) -> (builder: MessageBuilder)
        ensures
            builder@ == (MessageView { uuid: uuid@, name: None, values: Map::empty() }),
    {
        MessageBuilder { uuid: uuid.to_owned(), name: None, values: Vec::new() }
    }

    /// Starts from the identifier, the name and the values of `message`.
    pub fn from_message(message: &Message) -> (builder: MessageBuilder)
        ensures
            builder@ == message@,
    {
        MessageBuilder {
            uuid: message.uuid.clone(),
            name: copy_name(&message.name),
            values: copy_pairs(message.values()),
        }
    }

    /// Gives the message a name.
    pub fn name(&mut self, name: &str) -> (builder: &mut MessageBuilder)
        ensures
            builder@ == (MessageView { name: Some(name@), ..old(self)@ }),
            *final(self) == *final(builder),
    {
        proof {
            use_type_invariant(&*self);
        }
        self.name = Some(name.to_owned());
        self
    }

    /// Sets the value of `key`, in place of an earlier one if there was one.
    pub fn pair(&mut self, key: &str, value: &str) -> (builder: &mut MessageBuilder)
        ensures
            builder@ == (MessageView {
                values: old(self)@.values.insert(key@, value@),
                ..old(self)@
            }),
            *final(self) == *final(builder),
    {
        proof {
            use_type_invariant(&*self);
        }
        let mut values = Vec::new();
        std::mem::swap(&mut values, &mut self.values);
        set_pair(&mut values, key.to_owned(), value.to_owned());
        self.values = values;
        self
    }

    /// The message collected so far.
    pub fn build(&self) -> (message: Message)
        ensures
            message@ == self@,
    {
        proof {
            use_type_invariant(self);
        }
        Message {
            uuid: self.uuid.clone(),
            name: copy_name(&self.name),
            values: copy_pairs(&self.values),
        }
    }
}

} // verus!
