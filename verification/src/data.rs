use vstd::prelude::*;
use vstd::string::*;

verus! {

/// A table known to the remote service, by name.
pub struct Table {
    pub name: String,
}

#[derive(Clone, Copy, PartialEq, Eq, Structural, Debug)]
pub enum ScalarAttributeType {
    B,
    N,
    S,
}

impl ScalarAttributeType {
    pub fn as_str(&self) -> (r: &'static str)
        ensures
            self is B ==> r@ == "B"@,
            self is N ==> r@ == "N"@,
            self is S ==> r@ == "S"@,
    {
        match self {
            ScalarAttributeType::B => "B",
            ScalarAttributeType::N => "N",
            ScalarAttributeType::S => "S",
        }
    }
}

#[derive(Clone, Copy, PartialEq, Eq, Structural, Debug)]
pub enum KeyType {
    Hash,
    Range,
}

impl KeyType {
    pub fn as_str(&self) -> (r: &'static str)
        ensures
            self is Hash ==> r@ == "HASH"@,
            self is Range ==> r@ == "RANGE"@,
    {
        match self {
            KeyType::Hash => "HASH",
            KeyType::Range => "RANGE",
        }
    }
}

#[derive(Clone)]
pub struct AttributeDefinition {
    pub attribute_name: String,
    pub attribute_type: ScalarAttributeType,
}

impl AttributeDefinition {
    pub fn new(attribute_name: String, attribute_type: ScalarAttributeType) -> (r:
        AttributeDefinition)
        ensures
            r.attribute_name == attribute_name,
            r.attribute_type == attribute_type,
    {
        AttributeDefinition { attribute_name, attribute_type }
    }
}

#[derive(Clone)]
pub struct KeySchemaElement {
    pub attribute_name: String,
    pub key_type: KeyType,
}

/// The primary key shape of a table: a hash key alone, or hash and range keys.
#[derive(Clone)]
pub enum KeySchemaType {
    Hash(String),
    HashRange(String, String),
}

#[derive(Clone, Debug)]
pub enum TableStatus {
    Active,
    Archived,
    Archiving,
    Creating,
    Deleting,
    InaccessibleEncryptionCredentials,
    Updating,
}

impl TableStatus {
    pub fn as_str(&self) -> (r: &'static str)
        ensures
            self is Active ==> r@ == "ACTIVE"@,
            self is Archived ==> r@ == "ARCHIVED"@,
            self is Archiving ==> r@ == "ARCHIVING"@,
            self is Creating ==> r@ == "CREATING"@,
            self is Deleting ==> r@ == "DELETING"@,
            self is InaccessibleEncryptionCredentials ==> r@
                == "INACCESSIBLE_ENCRYPTION_CREDENTIALS"@,
            self is Updating ==> r@ == "UPDATING"@,
    {
        match self {
            TableStatus::Active => "ACTIVE",
            TableStatus::Archived => "ARCHIVED",
            TableStatus::Archiving => "ARCHIVING",
            TableStatus::Creating => "CREATING",
            TableStatus::Deleting => "DELETING",
            TableStatus::InaccessibleEncryptionCredentials => "INACCESSIBLE_ENCRYPTION_CREDENTIALS",
            TableStatus::Updating => "UPDATING",
        }
    }
}

#[derive(Clone, Copy)]
pub struct ProvisionedThroughput {
    pub last_increase_date_time: Option<i64>,
    pub last_decrease_date_time: Option<i64>,
    pub number_of_decreases_today: u64,
    pub read_capacity_units: u64,
    pub write_capacity_units: u64,
}

#[derive(Clone, Copy, PartialEq, Eq, Structural, Debug)]
pub enum ProjectionType {
    All,
    Include,
    KeysOnly,
}

impl ProjectionType {
    pub fn as_str(&self) -> (r: &'static str)
        ensures
            self is All ==> r@ == "ALL"@,
            self is Include ==> r@ == "INCLUDE"@,
            self is KeysOnly ==> r@ == "KEYS_ONLY"@,
    {
        match self {
            ProjectionType::All => "ALL",
            ProjectionType::Include => "INCLUDE",
            ProjectionType::KeysOnly => "KEYS_ONLY",
        }
    }
}

#[derive(Clone)]
pub struct Projection {
    pub projection_type: ProjectionType,
    pub non_key_attributes: Option<Vec<String>>,
}

#[derive(Clone)]
pub struct LocalSecondaryIndexDescription {
    pub index_name: String,
    pub key_schema: Vec<KeySchemaElement>,
    pub projection: Projection,
    pub index_size_bytes: u64,
    pub item_count: u64,
    pub index_arn: String,
}

#[derive(Clone)]
pub struct GlobalSecondaryIndexDescription {
    pub index_name: String,
    pub key_schema: Vec<KeySchemaElement>,
    pub projection: Projection,
    pub index_size_bytes: u64,
    pub item_count: u64,
    pub index_arn: String,
}

/// Everything the remote service reports about one table. Timestamps are
/// carried as nanoseconds since the epoch.
#[derive(Clone)]
pub struct TableDescription {
    pub attribute_definitions: Vec<AttributeDefinition>,
    pub table_name: String,
    pub key_schema: Vec<KeySchemaElement>,
    pub table_status: TableStatus,
    pub creation_date_time: i64,
    pub provisioned_throughput: Option<ProvisionedThroughput>,
    pub total_size_bytes: u64,
    pub item_count: u64,
    pub table_arn: String,
    pub local_secondary_indexes: Option<Vec<LocalSecondaryIndexDescription>>,
    pub global_secondary_indexes: Option<Vec<GlobalSecondaryIndexDescription>>,
    pub key_schema_type: KeySchemaType,
}

/// How many of the elements below `upto` are hash keys.
pub open spec fn hash_count(elems: Seq<KeySchemaElement>) -> nat
    decreases elems.len(),
{
    if elems.len() == 0 {
        0
    } else {
        hash_count(elems.drop_last()) + if elems.last().key_type is Hash {
            1nat
        } else {
            0nat
        }
    }
}

/// How many of the elements are range keys.
pub open spec fn range_count(elems: Seq<KeySchemaElement>) -> nat
    decreases elems.len(),
{
    if elems.len() == 0 {
        0
    } else {
        range_count(elems.drop_last()) + if elems.last().key_type is Range {
            1nat
        } else {
            0nat
        }
    }
}

/// Some element declares `name` as a hash key.
pub open spec fn is_hash_name(elems: Seq<KeySchemaElement>, name: Seq<char>) -> bool {
    exists|i: int|
        0 <= i < elems.len() && (#[trigger] elems[i]).key_type is Hash && elems[i].attribute_name@
            == name
}

/// Some element declares `name` as a range key.
pub open spec fn is_range_name(elems: Seq<KeySchemaElement>, name: Seq<char>) -> bool {
    exists|i: int|
        0 <= i < elems.len() && (#[trigger] elems[i]).key_type is Range && elems[i].attribute_name@
            == name
}

proof fn lemma_counts_prefix(elems: Seq<KeySchemaElement>, j: int)
    requires
        0 <= j <= elems.len(),
    ensures
        hash_count(elems.subrange(0, j)) <= hash_count(elems),
        range_count(elems.subrange(0, j)) <= range_count(elems),
    decreases elems.len() - j,
{
    if j < elems.len() {
        assert(elems.subrange(0, j + 1).drop_last() =~= elems.subrange(0, j));
        assert(elems.subrange(0, j + 1).last() == elems[j]);
        lemma_counts_prefix(elems, j + 1);
    } else {
        assert(elems.subrange(0, j) =~= elems);
    }
}

/// Classifies a well-formed key schema: the single hash key alone, or the hash
/// key with the single range key.
pub fn to_key_schema_type(elements: Vec<KeySchemaElement>) -> (r: KeySchemaType)
    requires
        hash_count(elements@) == 1,
        range_count(elements@) <= 1,
    ensures
        match r {
            KeySchemaType::Hash(h) => range_count(elements@) == 0 && is_hash_name(elements@, h@),
            KeySchemaType::HashRange(h, rg) => range_count(elements@) == 1 && is_hash_name(
                elements@,
                h@,
            ) && is_range_name(elements@, rg@),
        },
{
    let n = elements.len();
    let mut hash: Option<String> = None;
    let mut range: Option<String> = None;
    let mut i: usize = 0;
    while i < n
        invariant
            hash_count(elements@) == 1,
            range_count(elements@) <= 1,
            n == elements@.len(),
            i <= n,
            hash is None <==> hash_count(elements@.subrange(0, i as int)) == 0,
            range is None <==> range_count(elements@.subrange(0, i as int)) == 0,
            hash matches Some(h) ==> is_hash_name(elements@, h@),
            range matches Some(rg) ==> is_range_name(elements@, rg@),
        decreases n - i,
    {
        proof {
            assert(elements@.subrange(0, i + 1).drop_last() =~= elements@.subrange(0, i as int));
            assert(elements@.subrange(0, i + 1).last() == elements@[i as int]);
        }
        let name = elements[i].attribute_name.clone();
        match elements[i].key_type {
            KeyType::Hash => {
                if hash.is_none() {
                    hash = Some(name);
                } else {
                    proof {
                        lemma_counts_prefix(elements@, i + 1);
                        assert(false);
                    }
                }
            },
            KeyType::Range => {
                if range.is_none() {
                    range = Some(name);
                } else {
                    proof {
                        lemma_counts_prefix(elements@, i + 1);
                        assert(false);
                    }
                }
            },
        }
        i += 1;
    }
    proof {
        assert(elements@.subrange(0, n as int) =~= elements@);
    }
    let h = match hash {
        Some(h) => h,
        None => {
            proof {
                assert(false);
            }
            String::new()
        },
    };
    match range {
        Some(rg) => KeySchemaType::HashRange(h, rg),
        None => KeySchemaType::Hash(h),
    }
}

/// Lexicographic order on character sequences by Unicode scalar value.
pub open spec fn lex_le(a: Seq<char>, b: Seq<char>) -> bool
    decreases a.len(),
{
    if a.len() == 0 {
        true
    } else if b.len() == 0 {
        false
    } else if (a[0] as u32) == (b[0] as u32) {
        lex_le(a.skip(1), b.skip(1))
    } else {
        (a[0] as u32) < (b[0] as u32)
    }
}

pub proof fn lemma_lex_le_total(a: Seq<char>, b: Seq<char>)
    ensures
        lex_le(a, b) || lex_le(b, a),
    decreases a.len(),
{
    if a.len() > 0 && b.len() > 0 && (a[0] as u32) == (b[0] as u32) {
        lemma_lex_le_total(a.skip(1), b.skip(1));
    }
}

pub proof fn lemma_lex_le_trans(a: Seq<char>, b: Seq<char>, c: Seq<char>)
    requires
        lex_le(a, b),
        lex_le(b, c),
    ensures
        lex_le(a, c),
    decreases a.len(),
{
    if a.len() > 0 && b.len() > 0 && c.len() > 0 && (a[0] as u32) == (b[0] as u32) && (b[0] as u32)
        == (c[0] as u32) {
        lemma_lex_le_trans(a.skip(1), b.skip(1), c.skip(1));
    }
}

/// How early the schema wants a column: the hash key first, the range key
/// second, every other attribute after them.
pub open spec fn schema_rank(schema: KeySchemaType, name: Seq<char>) -> int {
    match schema {
        KeySchemaType::Hash(h) => if name == h@ {
            0
        } else {
            2
        },
        KeySchemaType::HashRange(h, rg) => if name == h@ {
            0
        } else if name == rg@ {
            1
        } else {
            2
        },
    }
}

/// The column order of a table: key attributes first, the rest alphabetically.
pub open spec fn key_le(schema: KeySchemaType, a: Seq<char>, b: Seq<char>) -> bool {
    ||| schema_rank(schema, a) < schema_rank(schema, b)
    ||| (schema_rank(schema, a) == schema_rank(schema, b) && lex_le(a, b))
}

/// The strict column order over distinct names.
pub open spec fn key_lt_on(schema: KeySchemaType) -> spec_fn(String, String) -> bool {
    |x: String, y: String| key_le(schema, x@, y@) && x@ != y@
}

pub proof fn lemma_key_le_total(schema: KeySchemaType, a: Seq<char>, b: Seq<char>)
    ensures
        key_le(schema, a, b) || key_le(schema, b, a),
{
    lemma_lex_le_total(a, b);
}

pub proof fn lemma_key_le_trans(schema: KeySchemaType, a: Seq<char>, b: Seq<char>, c: Seq<char>)
    requires
        key_le(schema, a, b),
        key_le(schema, b, c),
    ensures
        key_le(schema, a, c),
{
    if schema_rank(schema, a) == schema_rank(schema, b) && schema_rank(schema, b) == schema_rank(
        schema,
        c,
    ) {
        lemma_lex_le_trans(a, b, c);
    }
}

fn lex_le_exec(a: &str, b: &str) -> (r: bool)
    ensures
        r == lex_le(a@, b@),
{
    let n = a.unicode_len();
    let m = b.unicode_len();
    proof {
        assert(a@.skip(0) =~= a@);
        assert(b@.skip(0) =~= b@);
    }
    let mut k: usize = 0;
    while k < n && k < m
        invariant
            n == a@.len(),
            m == b@.len(),
            k <= n,
            k <= m,
            lex_le(a@, b@) == lex_le(a@.skip(k as int), b@.skip(k as int)),
        decreases n - k,
    {
        let ca = a.get_char(k);
        let cb = b.get_char(k);
        proof {
            assert(a@.skip(k as int)[0] == a@[k as int]);
            assert(b@.skip(k as int)[0] == b@[k as int]);
            assert(a@.skip(k as int).skip(1) =~= a@.skip(k + 1));
            assert(b@.skip(k as int).skip(1) =~= b@.skip(k + 1));
        }
        if (ca as u32) != (cb as u32) {
            return (ca as u32) < (cb as u32);
        }
        k += 1;
    }
    k == n
}

fn schema_rank_exec(schema: &KeySchemaType, name: &String) -> (r: usize)
    ensures
        r == schema_rank(*schema, name@),
{
    match schema {
        KeySchemaType::Hash(h) => if name.eq(h) {
            0
        } else {
            2
        },
        KeySchemaType::HashRange(h, rg) => if name.eq(h) {
            0
        } else if name.eq(rg) {
            1
        } else {
            2
        },
    }
}

fn key_le_exec(schema: &KeySchemaType, a: &String, b: &String) -> (r: bool)
    ensures
        r == key_le(*schema, a@, b@),
{
    let ra = schema_rank_exec(schema, a);
    let rb = schema_rank_exec(schema, b);
    if ra < rb {
        true
    } else if ra > rb {
        false
    } else {
        lex_le_exec(a.as_str(), b.as_str())
    }
}

proof fn lemma_insert_multiset<A>(s: Seq<A>, p: int, x: A)
    requires
        0 <= p <= s.len(),
    ensures
        s.insert(p, x).to_multiset() == s.to_multiset().insert(x),
{
    broadcast use vstd::seq_lib::group_to_multiset_ensures;

    let l = s.subrange(0, p);
    let r = s.subrange(p, s.len() as int);
    assert(s =~= l + r);
    assert(s.insert(p, x) =~= l.push(x) + r);
    vstd::seq_lib::lemma_multiset_commutative(l, r);
    vstd::seq_lib::lemma_multiset_commutative(l.push(x), r);
    assert(l.push(x).to_multiset() =~= l.to_multiset().insert(x));
    assert(s.insert(p, x).to_multiset() =~= s.to_multiset().insert(x));
}

/// Places `x` into a strictly sorted column list, keeping it sorted; `x` must
/// not repeat a name already present.
fn insert_sorted(out: &mut Vec<String>, x: String, schema: &KeySchemaType)
    requires
        vstd::relations::sorted_by(old(out)@, key_lt_on(*schema)),
        forall|i: int| 0 <= i < old(out)@.len() ==> (#[trigger] old(out)@[i])@ != x@,
    ensures
        vstd::relations::sorted_by(final(out)@, key_lt_on(*schema)),
        final(out)@.to_multiset() == old(out)@.to_multiset().insert(x),
        final(out)@.len() == old(out)@.len() + 1,
{
    let ghost pre = out@;
    let n = out.len();
    let mut p: usize = 0;
    let mut done: bool = false;
    while !done && p < n
        invariant
            out@ == pre,
            n == pre.len(),
            p <= n,
            forall|t: int| 0 <= t < p ==> key_le(*schema, (#[trigger] pre[t])@, x@),
            done ==> p < n && !key_le(*schema, pre[p as int]@, x@),
        decreases n - p, (if done { 0int } else { 1int }),
    {
        let le = key_le_exec(schema, &out[p], &x);
        if le {
            p += 1;
        } else {
            done = true;
        }
    }
    out.insert(p, x);
    proof {
        pre.insert_ensures(p as int, x);
        lemma_insert_multiset(pre, p as int, x);
        let cur = out@;
        let lt = key_lt_on(*schema);
        if p < n {
            lemma_key_le_total(*schema, x@, pre[p as int]@);
        }
        assert forall|i: int, j: int| 0 <= i < j < cur.len() implies #[trigger] lt(
            cur[i],
            cur[j],
        ) by {
            if j < p {
                assert(cur[i] == pre[i] && cur[j] == pre[j]);
                assert(vstd::relations::sorted_by(pre, lt));
                assert(lt(pre[i], pre[j]));
            } else if i > p {
                assert(cur[i] == pre[i - 1] && cur[j] == pre[j - 1]);
                assert(lt(pre[i - 1], pre[j - 1]));
            } else if i < p && j == p {
                assert(cur[i] == pre[i] && cur[j] == x);
            } else if i < p && j > p {
                assert(cur[i] == pre[i] && cur[j] == pre[j - 1]);
                if j - 1 == p {
                    assert(lt(pre[i], pre[p as int]));
                } else {
                    assert(lt(pre[i], pre[j - 1]));
                }
            } else if i == p && j > p {
                assert(cur[i] == x && cur[j] == pre[j - 1]);
                if p + 1 < j {
                    assert(lt(pre[p as int], pre[j - 1]));
                    lemma_key_le_trans(*schema, x@, pre[p as int]@, pre[j - 1]@);
                } else {
                    assert(pre[j - 1] == pre[p as int]);
                }
            }
        }
    }
}

/// Sorts distinct column names into the schema's column order: key attributes
/// first, the rest alphabetically. The names themselves are only rearranged.
pub fn sort_keys(keys: &mut Vec<String>, schema: &KeySchemaType)
    requires
        forall|i: int, j: int|
            0 <= i < j < old(keys)@.len() ==> (#[trigger] old(keys)@[i])@ != (#[trigger] old(
                keys,
            )@[j])@,
    ensures
        vstd::relations::sorted_by(final(keys)@, key_lt_on(*schema)),
        final(keys)@.to_multiset() == old(keys)@.to_multiset(),
        final(keys)@.len() == old(keys)@.len(),
{
    broadcast use vstd::seq_lib::group_to_multiset_ensures;

    let ghost pre = keys@;
    let n = keys.len();
    let mut out: Vec<String> = Vec::new();
    let mut i: usize = 0;
    while i < n
        invariant
            keys@ == pre,
            n == pre.len(),
            i <= n,
            forall|a: int, b: int|
                0 <= a < b < pre.len() ==> (#[trigger] pre[a])@ != (#[trigger] pre[b])@,
            vstd::relations::sorted_by(out@, key_lt_on(*schema)),
            out@.to_multiset() == pre.subrange(0, i as int).to_multiset(),
            out@.len() == i,
            forall|t: int|
                0 <= t < out@.len() ==> exists|j: int| 0 <= j < i && #[trigger] out@[t] == pre[j],
        decreases n - i,
    {
        let x = keys[i].clone();
        assert forall|t: int| 0 <= t < out@.len() implies (#[trigger] out@[t])@ != x@ by {
            let j = choose|j: int| 0 <= j < i && #[trigger] out@[t] == pre[j];
            assert(pre[j]@ != pre[i as int]@);
        }
        let ghost out_pre = out@;
        insert_sorted(&mut out, x, schema);
        proof {
            broadcast use vstd::seq_lib::group_to_multiset_ensures;

            assert(pre.subrange(0, i + 1).drop_last() =~= pre.subrange(0, i as int));
            assert(pre.subrange(0, i + 1) =~= pre.subrange(0, i as int).push(pre[i as int]));
            assert forall|t: int| 0 <= t < out@.len() implies exists|j: int|
                0 <= j < i + 1 && #[trigger] out@[t] == pre[j] by {
                assert(out@.to_multiset() == out_pre.to_multiset().insert(pre[i as int]));
                assert(out@.contains(out@[t]));
                assert(out@.to_multiset().count(out@[t]) > 0);
                if out_pre.to_multiset().count(out@[t]) > 0 {
                    assert(out_pre.contains(out@[t]));
                    let u = choose|u: int| 0 <= u < out_pre.len() && out_pre[u] == out@[t];
                    let j = choose|j: int| 0 <= j < i && #[trigger] out_pre[u] == pre[j];
                    assert(out@[t] == pre[j]);
                } else {
                    assert(out@[t] == pre[i as int]);
                }
            }
        }
        i += 1;
    }
    proof {
        assert(pre.subrange(0, n as int) =~= pre);
    }
    *keys = out;
}

/// The type tag of an item's attribute value, or the absence of the attribute.
#[derive(Clone, Copy, PartialEq, Eq, Structural, Debug)]
pub enum AttributeType {
    S,
    N,
    B,
    Bool,
    Null,
    L,
    M,
    Ss,
    Ns,
    Bs,
    Absent,
}

impl AttributeType {
    pub fn as_str(&self) -> (r: &'static str)
        ensures
            self is S ==> r@ == "S"@,
            self is N ==> r@ == "N"@,
            self is B ==> r@ == "B"@,
            self is Bool ==> r@ == "BOOL"@,
            self is Null ==> r@ == "NULL"@,
            self is L ==> r@ == "L"@,
            self is M ==> r@ == "M"@,
            self is Ss ==> r@ == "SS"@,
            self is Ns ==> r@ == "NS"@,
            self is Bs ==> r@ == "BS"@,
            self is Absent ==> r@ == "undefined"@,
    {
        match self {
            AttributeType::S => "S",
            AttributeType::N => "N",
            AttributeType::B => "B",
            AttributeType::Bool => "BOOL",
            AttributeType::Null => "NULL",
            AttributeType::L => "L",
            AttributeType::M => "M",
            AttributeType::Ss => "SS",
            AttributeType::Ns => "NS",
            AttributeType::Bs => "BS",
            AttributeType::Absent => "undefined",
        }
    }
}

/// One attribute of an item, as the viewer reads it: its name, its type tag
/// and its value rendered as plain text.
#[derive(Clone)]
pub struct ItemAttribute {
    pub name: String,
    pub kind: AttributeType,
    pub text: String,
}

/// One item of a table.
#[derive(Clone)]
pub struct Item {
    pub attributes: Vec<ItemAttribute>,
}

/// The item carries an attribute called `name`.
pub open spec fn item_has_key(item: Item, name: Seq<char>) -> bool {
    exists|i: int|
        0 <= i < item.attributes@.len() && (#[trigger] item.attributes@[i]).name@ == name
}

/// Some of the items below `upto` carry an attribute called `name`.
pub open spec fn key_in_prefix(items: Seq<Item>, upto: int, name: Seq<char>) -> bool {
    exists|j: int| 0 <= j < upto && item_has_key(#[trigger] items[j], name)
}

/// Some of the items carry an attribute called `name`.
pub open spec fn some_item_has_key(items: Seq<Item>, name: Seq<char>) -> bool {
    key_in_prefix(items, items.len() as int, name)
}

/// One of the strings reads `x`.
pub open spec fn has_name(names: Seq<String>, x: Seq<char>) -> bool {
    exists|i: int| 0 <= i < names.len() && (#[trigger] names[i])@ == x
}

fn contains_name(names: &Vec<String>, x: &String) -> (r: bool)
    ensures
        r == has_name(names@, x@),
{
    let n = names.len();
    let mut i: usize = 0;
    while i < n
        invariant
            n == names@.len(),
            i <= n,
            forall|t: int| 0 <= t < i ==> (#[trigger] names@[t])@ != x@,
        decreases n - i,
    {
        if names[i].eq(x) {
            return true;
        }
        i += 1;
    }
    false
}

/// Collects every attribute name occurring in the items, each once, sorted
/// into the schema's column order: key attributes first, the rest
/// alphabetically.
pub fn list_attribute_keys(items: &Vec<Item>, schema: &KeySchemaType) -> (r: Vec<String>)
    ensures
        forall|x: Seq<char>| #[trigger] has_name(r@, x) ==> some_item_has_key(items@, x),
        forall|x: Seq<char>| #[trigger] some_item_has_key(items@, x) ==> has_name(r@, x),
        vstd::relations::sorted_by(r@, key_lt_on(*schema)),
{
    broadcast use vstd::seq_lib::group_to_multiset_ensures;

    let nitems = items.len();
    let mut names: Vec<String> = Vec::new();
    let mut j: usize = 0;
    while j < nitems
        invariant
            nitems == items@.len(),
            j <= nitems,
            forall|a: int, b: int|
                0 <= a < b < names@.len() ==> (#[trigger] names@[a])@ != (#[trigger] names@[b])@,
            forall|x: Seq<char>| #[trigger] has_name(names@, x) ==> key_in_prefix(
                items@,
                j as int,
                x,
            ),
            forall|x: Seq<char>| #[trigger] key_in_prefix(items@, j as int, x) ==> has_name(
                names@,
                x,
            ),
        decreases nitems - j,
    {
        let nattrs = items[j].attributes.len();
        let mut a: usize = 0;
        while a < nattrs
            invariant
                nitems == items@.len(),
                j < nitems,
                nattrs == items@[j as int].attributes@.len(),
                a <= nattrs,
                forall|p: int, q: int|
                    0 <= p < q < names@.len() ==> (#[trigger] names@[p])@ != (#[trigger] names@[q])@,
                forall|x: Seq<char>| #[trigger] has_name(names@, x) ==> key_in_prefix(
                    items@,
                    j as int,
                    x,
                ) || (exists|t: int|
                    0 <= t < a && (#[trigger] items@[j as int].attributes@[t]).name@ == x),
                forall|x: Seq<char>| #[trigger] key_in_prefix(items@, j as int, x) ==> has_name(
                    names@,
                    x,
                ),
                forall|t: int|
                    0 <= t < a ==> has_name(names@, (#[trigger] items@[j as int].attributes@[t]).name@),
            decreases nattrs - a,
        {
            let nm = items[j].attributes[a].name.clone();
            let present = contains_name(&names, &nm);
            let ghost pre_names = names@;
            if !present {
                names.push(nm);
                proof {
                    assert forall|x: Seq<char>| #[trigger] has_name(names@, x) implies
                        key_in_prefix(items@, j as int, x) || (exists|t: int|
                        0 <= t < a + 1 && (#[trigger] items@[j as int].attributes@[t]).name@
                            == x) by {
                        let i = choose|i: int| 0 <= i < names@.len() && (#[trigger] names@[i])@ == x;
                        if i < pre_names.len() {
                            assert(has_name(pre_names, x));
                        } else {
                            assert(items@[j as int].attributes@[a as int].name@ == x);
                        }
                    }
                    assert forall|x: Seq<char>| #[trigger] key_in_prefix(items@, j as int, x)
                        implies has_name(names@, x) by {
                        assert(has_name(pre_names, x));
                        let i = choose|i: int|
                            0 <= i < pre_names.len() && (#[trigger] pre_names[i])@ == x;
                        assert(names@[i]@ == x);
                    }
                    assert forall|t: int| 0 <= t < a + 1 implies has_name(
                        names@,
                        (#[trigger] items@[j as int].attributes@[t]).name@,
                    ) by {
                        if t < a {
                            let x = items@[j as int].attributes@[t].name@;
                            assert(has_name(pre_names, x));
                            let i = choose|i: int|
                                0 <= i < pre_names.len() && (#[trigger] pre_names[i])@ == x;
                            assert(names@[i]@ == x);
                        } else {
                            assert(names@[names@.len() - 1]@ == items@[j as int].attributes@[
                                a as int].name@);
                        }
                    }
                }
            }
            a += 1;
        }
        proof {
            assert forall|x: Seq<char>| #[trigger] has_name(names@, x) implies key_in_prefix(
                items@,
                j + 1,
                x,
            ) by {
                if key_in_prefix(items@, j as int, x) {
                    let w = choose|w: int| 0 <= w < j && item_has_key(#[trigger] items@[w], x);
                    assert(item_has_key(items@[w], x));
                } else {
                    assert(item_has_key(items@[j as int], x));
                }
            }
            assert forall|x: Seq<char>| #[trigger] key_in_prefix(items@, j + 1, x) implies
                has_name(names@, x) by {
                let w = choose|w: int| 0 <= w < j + 1 && item_has_key(#[trigger] items@[w], x);
                if w < j {
                    assert(key_in_prefix(items@, j as int, x));
                } else {
                    let t = choose|t: int|
                        0 <= t < items@[w].attributes@.len() && (
                        #[trigger] items@[w].attributes@[t]).name@ == x;
                    assert(has_name(names@, items@[j as int].attributes@[t].name@));
                }
            }
        }
        j += 1;
    }
    let ghost unsorted = names@;
    sort_keys(&mut names, schema);
    proof {
        assert forall|x: Seq<char>| #[trigger] has_name(names@, x) implies some_item_has_key(
            items@,
            x,
        ) by {
            let i = choose|i: int| 0 <= i < names@.len() && (#[trigger] names@[i])@ == x;
            assert(names@.contains(names@[i]));
            assert(names@.to_multiset().count(names@[i]) > 0);
            assert(unsorted.contains(names@[i]));
            let u = choose|u: int| 0 <= u < unsorted.len() && unsorted[u] == names@[i];
            assert(has_name(unsorted, x));
        }
        assert forall|x: Seq<char>| #[trigger] some_item_has_key(items@, x) implies has_name(
            names@,
            x,
        ) by {
            assert(has_name(unsorted, x));
            let i = choose|i: int| 0 <= i < unsorted.len() && (#[trigger] unsorted[i])@ == x;
            assert(unsorted.contains(unsorted[i]));
            assert(unsorted.to_multiset().count(unsorted[i]) > 0);
            assert(names@.contains(unsorted[i]));
            let u = choose|u: int| 0 <= u < names@.len() && names@[u] == unsorted[i];
            assert(names@[u]@ == x);
        }
    }
    names
}

/// The rendered text of the first attribute called `name`, scanning from `i`.
pub open spec fn attr_text_from(attrs: Seq<ItemAttribute>, name: Seq<char>, i: int) -> Seq<char>
    decreases attrs.len() - i,
{
    if i < 0 || i >= attrs.len() {
        Seq::empty()
    } else if attrs[i].name@ == name {
        attrs[i].text@
    } else {
        attr_text_from(attrs, name, i + 1)
    }
}

/// The rendered text of the item's attribute called `name`.
pub open spec fn attr_text_of(item: Item, name: Seq<char>) -> Seq<char> {
    attr_text_from(item.attributes@, name, 0)
}

fn find_attr_text(item: &Item, name: &String) -> (r: String)
    requires
        item_has_key(*item, name@),
    ensures
        r@ == attr_text_of(*item, name@),
{
    let n = item.attributes.len();
    let mut i: usize = 0;
    while i < n
        invariant
            n == item.attributes@.len(),
            i <= n,
            item_has_key(*item, name@),
            forall|t: int| 0 <= t < i ==> (#[trigger] item.attributes@[t]).name@ != name@,
            attr_text_of(*item, name@) == attr_text_from(item.attributes@, name@, i as int),
        decreases n - i,
    {
        if item.attributes[i].name.eq(name) {
            return item.attributes[i].text.clone();
        }
        i += 1;
    }
    proof {
        let w = choose|w: int|
            0 <= w < item.attributes@.len() && (#[trigger] item.attributes@[w]).name@ == name@;
        assert(false);
    }
    String::new()
}

/// The key of an item as the status line shows it: the hash key value, with
/// the range key value after a separator when the schema has one.
pub fn to_key_string(item: &Item, schema: &KeySchemaType) -> (r: String)
    requires
        match *schema {
            KeySchemaType::Hash(h) => item_has_key(*item, h@),
            KeySchemaType::HashRange(h, rg) => item_has_key(*item, h@) && item_has_key(
                *item,
                rg@,
            ),
        },
    ensures
        match *schema {
            KeySchemaType::Hash(h) => r@ == attr_text_of(*item, h@),
            KeySchemaType::HashRange(h, rg) => r@ == attr_text_of(*item, h@) + " / "@
                + attr_text_of(*item, rg@),
        },
{
    match schema {
        KeySchemaType::Hash(h) => find_attr_text(item, h),
        KeySchemaType::HashRange(h, rg) => {
            let mut out = find_attr_text(item, h);
            let second = find_attr_text(item, rg);
            out.append(" / ");
            out.append(second.as_str());
            out
        },
    }
}

/// The share each attribute type has among the items, for one attribute.
pub struct AttributeDistribution {
    pub attribute_name: String,
    pub distributions: Vec<(crate::data::AttributeType, usize)>,
}

/// The aggregate report over a loaded table: how many items it holds and how
/// each attribute's value types are distributed over them.
pub struct TableInsight {
    pub table_name: String,
    pub total_items: usize,
    pub attribute_distributions: Vec<AttributeDistribution>,
}

/// A field-for-field copy of a key schema classification.
pub fn clone_key_schema_type(s: &KeySchemaType) -> (r: KeySchemaType)
    ensures
        r == *s,
{
    match s {
        KeySchemaType::Hash(h) => KeySchemaType::Hash(h.clone()),
        KeySchemaType::HashRange(h, rg) => KeySchemaType::HashRange(h.clone(), rg.clone()),
    }
}

/// A field-for-field copy of an item.
pub fn clone_item(item: &Item) -> (r: Item)
    ensures
        r.attributes@ == item.attributes@,
{
    let n = item.attributes.len();
    let mut out: Vec<ItemAttribute> = Vec::new();
    let mut i: usize = 0;
    while i < n
        invariant
            n == item.attributes@.len(),
            i <= n,
            out@ == item.attributes@.subrange(0, i as int),
        decreases n - i,
    {
        out.push(ItemAttribute {
            name: item.attributes[i].name.clone(),
            kind: item.attributes[i].kind,
            text: item.attributes[i].text.clone(),
        });
        proof {
            assert(item.attributes@.subrange(0, i + 1) =~= item.attributes@.subrange(
                0,
                i as int,
            ).push(item.attributes@[i as int]));
        }
        i += 1;
    }
    proof {
        assert(item.attributes@.subrange(0, n as int) =~= item.attributes@);
    }
    Item { attributes: out }
}

/// The first attribute called `name` determines the rendered text: scanning
/// from any point before the first match lands on the same attribute.
pub proof fn lemma_attr_text_first(attrs: Seq<ItemAttribute>, name: Seq<char>, a: int, i: int)
    requires
        0 <= i <= a < attrs.len(),
        attrs[a].name@ == name,
        forall|t: int| 0 <= t < a ==> (#[trigger] attrs[t]).name@ != name,
    ensures
        attr_text_from(attrs, name, i) == attrs[a].text@,
    decreases a - i,
{
    if i < a {
        lemma_attr_text_first(attrs, name, a, i + 1);
    }
}

/// The type the item shows for attribute `name`, scanning from `i`: the first
/// attribute of that name, or the absence marker.
pub open spec fn attr_kind_from(attrs: Seq<ItemAttribute>, name: Seq<char>, i: int) -> AttributeType
    decreases attrs.len() - i,
{
    if i < 0 || i >= attrs.len() {
        AttributeType::Absent
    } else if attrs[i].name@ == name {
        attrs[i].kind
    } else {
        attr_kind_from(attrs, name, i + 1)
    }
}

/// The type the item shows for attribute `name`.
pub open spec fn attr_kind_of(item: Item, name: Seq<char>) -> AttributeType {
    attr_kind_from(item.attributes@, name, 0)
}

/// How many of the items below `upto` show type `t` for attribute `name`.
pub open spec fn kind_count(items: Seq<Item>, name: Seq<char>, t: AttributeType, upto: int) -> nat
    decreases upto,
{
    if upto <= 0 {
        0
    } else {
        kind_count(items, name, t, upto - 1) + if attr_kind_of(items[upto - 1], name) == t {
            1nat
        } else {
            0nat
        }
    }
}

/// Total of the occurrence counts a distribution lists.
pub open spec fn sum_pairs(pairs: Seq<(AttributeType, usize)>) -> int
    decreases pairs.len(),
{
    if pairs.len() == 0 {
        0
    } else {
        sum_pairs(pairs.drop_last()) + pairs.last().1
    }
}

proof fn lemma_sum_split(s: Seq<(AttributeType, usize)>, t: Seq<(AttributeType, usize)>)
    ensures
        sum_pairs(s + t) == sum_pairs(s) + sum_pairs(t),
    decreases t.len(),
{
    if t.len() == 0 {
        assert(s + t =~= s);
    } else {
        assert((s + t).drop_last() =~= s + t.drop_last());
        assert((s + t).last() == t.last());
        lemma_sum_split(s, t.drop_last());
    }
}

proof fn lemma_sum_insert(s: Seq<(AttributeType, usize)>, p: int, x: (AttributeType, usize))
    requires
        0 <= p <= s.len(),
    ensures
        sum_pairs(s.insert(p, x)) == sum_pairs(s) + x.1,
{
    let l = s.subrange(0, p);
    let r = s.subrange(p, s.len() as int);
    assert(s =~= l + r);
    assert(s.insert(p, x) =~= l.push(x) + r);
    lemma_sum_split(l, r);
    lemma_sum_split(l.push(x), r);
    assert(l.push(x).drop_last() =~= l);
}

/// Every item shows exactly one type for the column, so the per-type counts
/// partition the items.
proof fn lemma_kind_partition(items: Seq<Item>, key: Seq<char>, upto: int)
    requires
        0 <= upto,
    ensures
        kind_count(items, key, AttributeType::S, upto) + kind_count(items, key, AttributeType::N, upto)
            + kind_count(items, key, AttributeType::B, upto) + kind_count(
            items,
            key,
            AttributeType::Bool,
            upto,
        ) + kind_count(items, key, AttributeType::Null, upto) + kind_count(
            items,
            key,
            AttributeType::L,
            upto,
        ) + kind_count(items, key, AttributeType::M, upto) + kind_count(
            items,
            key,
            AttributeType::Ss,
            upto,
        ) + kind_count(items, key, AttributeType::Ns, upto) + kind_count(
            items,
            key,
            AttributeType::Bs,
            upto,
        ) + kind_count(items, key, AttributeType::Absent, upto) == upto,
    decreases upto,
{
    if upto > 0 {
        lemma_kind_partition(items, key, upto - 1);
    }
}

proof fn lemma_kind_count_le(items: Seq<Item>, name: Seq<char>, t: AttributeType, upto: int)
    requires
        upto >= 0,
    ensures
        kind_count(items, name, t, upto) <= upto,
    decreases upto,
{
    if upto > 0 {
        lemma_kind_count_le(items, name, t, upto - 1);
    }
}

fn find_attr_kind(item: &Item, name: &String) -> (r: AttributeType)
    ensures
        r == attr_kind_of(*item, name@),
{
    let n = item.attributes.len();
    let mut i: usize = 0;
    while i < n
        invariant
            n == item.attributes@.len(),
            i <= n,
            attr_kind_of(*item, name@) == attr_kind_from(item.attributes@, name@, i as int),
        decreases n - i,
    {
        if item.attributes[i].name.eq(name) {
            return item.attributes[i].kind;
        }
        i += 1;
    }
    AttributeType::Absent
}

fn count_kind(items: &Vec<Item>, key: &String, t: AttributeType) -> (r: usize)
    ensures
        r == kind_count(items@, key@, t, items@.len() as int),
{
    let n = items.len();
    let mut c: usize = 0;
    let mut j: usize = 0;
    while j < n
        invariant
            n == items@.len(),
            j <= n,
            c == kind_count(items@, key@, t, j as int),
            c <= j,
        decreases n - j,
    {
        let k = find_attr_kind(&items[j], key);
        if k == t {
            c += 1;
        }
        j += 1;
    }
    c
}

/// The distribution pairs of one column meet their contract: each listed pair
/// carries the exact occurrence count of its type, every occurring type and
/// only occurring types are listed, each type once, and the counts fall from
/// left to right.
pub open spec fn dist_counts_ok(
    items: Seq<Item>,
    name: Seq<char>,
    pairs: Seq<(AttributeType, usize)>,
) -> bool {
    &&& forall|p: int|
        0 <= p < pairs.len() ==> (#[trigger] pairs[p]).1 == kind_count(
            items,
            name,
            pairs[p].0,
            items.len() as int,
        ) && pairs[p].1 >= 1
    &&& forall|t: AttributeType|
        kind_count(items, name, t, items.len() as int) >= 1 ==> exists|p: int|
            0 <= p < pairs.len() && (#[trigger] pairs[p]).0 == t
    &&& forall|p: int, q: int|
        0 <= p < q < pairs.len() ==> (#[trigger] pairs[p]).0 != (#[trigger] pairs[q]).0
}

pub open spec fn dist_ok(items: Seq<Item>, name: Seq<char>, pairs: Seq<(AttributeType, usize)>) -> bool {
    &&& dist_counts_ok(items, name, pairs)
    &&& forall|p: int, q: int|
        0 <= p < q < pairs.len() ==> (#[trigger] pairs[p]).1 >= (#[trigger] pairs[q]).1
}

fn push_kind_if_present(
    acc: &mut Vec<(AttributeType, usize)>,
    items: &Vec<Item>,
    key: &String,
    t: AttributeType,
)
    requires
        forall|p: int| 0 <= p < old(acc)@.len() ==> (#[trigger] old(acc)@[p]).0 != t,
    ensures
        final(acc)@.len() >= old(acc)@.len(),
        forall|p: int| 0 <= p < old(acc)@.len() ==> (#[trigger] final(acc)@[p]) == old(acc)@[p],
        kind_count(items@, key@, t, items@.len() as int) >= 1 ==> final(acc)@.len() == old(acc)@.len() + 1 && final(acc)@.last().0 == t && final(acc)@.last().1 == kind_count(
            items@,
            key@,
            t,
            items@.len() as int,
        ),
        kind_count(items@, key@, t, items@.len() as int) == 0 ==> final(acc)@ == old(acc)@,
        forall|p: int|
            old(acc)@.len() <= p < final(acc)@.len() ==> (#[trigger] final(acc)@[p]).0 == t,
{
    let c = count_kind(items, key, t);
    proof {
        lemma_kind_count_le(items@, key@, t, items@.len() as int);
    }
    if c >= 1 {
        acc.push((t, c));
    }
}

fn all_attribute_types() -> (r: Vec<AttributeType>)
    ensures
        r@ =~= seq![
            AttributeType::S,
            AttributeType::N,
            AttributeType::B,
            AttributeType::Bool,
            AttributeType::Null,
            AttributeType::L,
            AttributeType::M,
            AttributeType::Ss,
            AttributeType::Ns,
            AttributeType::Bs,
            AttributeType::Absent,
        ],
{
    let mut v: Vec<AttributeType> = Vec::new();
    v.push(AttributeType::S);
    v.push(AttributeType::N);
    v.push(AttributeType::B);
    v.push(AttributeType::Bool);
    v.push(AttributeType::Null);
    v.push(AttributeType::L);
    v.push(AttributeType::M);
    v.push(AttributeType::Ss);
    v.push(AttributeType::Ns);
    v.push(AttributeType::Bs);
    v.push(AttributeType::Absent);
    proof {
        assert(v@ =~= seq![
            AttributeType::S,
            AttributeType::N,
            AttributeType::B,
            AttributeType::Bool,
            AttributeType::Null,
            AttributeType::L,
            AttributeType::M,
            AttributeType::Ss,
            AttributeType::Ns,
            AttributeType::Bs,
            AttributeType::Absent,
        ]);
    }
    v
}


/// Sum of the column's per-type counts over the first `upto` listed types.
pub open spec fn kinds_total(
    items: Seq<Item>,
    key: Seq<char>,
    variants: Seq<AttributeType>,
    upto: int,
) -> int
    decreases upto,
{
    if upto <= 0 {
        0
    } else {
        kinds_total(items, key, variants, upto - 1) + kind_count(
            items,
            key,
            variants[upto - 1],
            items.len() as int,
        )
    }
}

/// One entry for every attribute type occurring for the column, each with its
/// exact occurrence count.
#[verifier::rlimit(50)]
fn collect_distribution_counts(items: &Vec<Item>, key: &String) -> (r: Vec<(AttributeType, usize)>)
    ensures
        dist_counts_ok(items@, key@, r@),
        sum_pairs(r@) == items@.len(),
{
    let variants = all_attribute_types();
    let nv = variants.len();
    let mut acc: Vec<(AttributeType, usize)> = Vec::new();
    let mut vi: usize = 0;
    while vi < nv
        invariant
            nv == variants@.len(),
            vi <= nv,
            forall|j: int, k: int|
                0 <= j < k < variants@.len() ==> (#[trigger] variants@[j]) != (
                #[trigger] variants@[k]),
            forall|p: int|
                0 <= p < acc@.len() ==> (#[trigger] acc@[p]).1 == kind_count(
                    items@,
                    key@,
                    acc@[p].0,
                    items@.len() as int,
                ) && acc@[p].1 >= 1,
            forall|p: int, q: int|
                0 <= p < q < acc@.len() ==> (#[trigger] acc@[p]).0 != (#[trigger] acc@[q]).0,
            forall|j: int|
                0 <= j < vi && kind_count(items@, key@, variants@[j], items@.len() as int) >= 1
                    ==> exists|p: int|
                    0 <= p < acc@.len() && (#[trigger] acc@[p]).0 == variants@[j],
            forall|p: int|
                0 <= p < acc@.len() ==> exists|j: int|
                    0 <= j < vi && (#[trigger] acc@[p]).0 == variants@[j],
            sum_pairs(acc@) == kinds_total(items@, key@, variants@, vi as int),
        decreases nv - vi,
    {
        let t = variants[vi];
        proof {
            assert forall|p: int| 0 <= p < acc@.len() implies (#[trigger] acc@[p]).0 != t by {
                let j = choose|j: int| 0 <= j < vi && (#[trigger] acc@[p]).0 == variants@[j];
            }
        }
        let ghost pre = acc@;
        push_kind_if_present(&mut acc, items, key, t);
        proof {
            if acc@.len() == pre.len() + 1 {
                assert(acc@.drop_last() =~= pre);
            }
            assert(sum_pairs(acc@) == kinds_total(items@, key@, variants@, vi + 1));
            assert forall|j: int|
                0 <= j < vi + 1 && kind_count(items@, key@, variants@[j], items@.len() as int)
                    >= 1 implies exists|p: int|
                0 <= p < acc@.len() && (#[trigger] acc@[p]).0 == variants@[j] by {
                if j < vi {
                    let p = choose|p: int| 0 <= p < pre.len() && (#[trigger] pre[p]).0 == variants@[j];
                    assert(acc@[p].0 == variants@[j]);
                } else {
                    assert(acc@[acc@.len() - 1].0 == t);
                }
            }
            assert forall|p: int| 0 <= p < acc@.len() implies exists|j: int|
                0 <= j < vi + 1 && (#[trigger] acc@[p]).0 == variants@[j] by {
                if p < pre.len() {
                    let j = choose|j: int| 0 <= j < vi && (#[trigger] pre[p]).0 == variants@[j];
                } else {
                    assert(acc@[p].0 == variants@[vi as int]);
                }
            }
        }
        vi += 1;
    }
    proof {
        reveal_with_fuel(kinds_total, 12);
        lemma_kind_partition(items@, key@, items@.len() as int);
        assert(sum_pairs(acc@) == items@.len());
        assert forall|t: AttributeType|
            kind_count(items@, key@, t, items@.len() as int) >= 1 implies exists|p: int|
            0 <= p < acc@.len() && (#[trigger] acc@[p]).0 == t by {
            let j: int = if t is S {
                0
            } else if t is N {
                1
            } else if t is B {
                2
            } else if t is Bool {
                3
            } else if t is Null {
                4
            } else if t is L {
                5
            } else if t is M {
                6
            } else if t is Ss {
                7
            } else if t is Ns {
                8
            } else if t is Bs {
                9
            } else {
                10
            };
            assert(variants@[j] == t);
        }
    }
    acc
}

/// Places a pair into a list sorted by falling count, keeping it sorted.
fn insert_pair_sorted(out: &mut Vec<(AttributeType, usize)>, x: (AttributeType, usize))
    requires
        forall|a: int, b: int|
            0 <= a < b < old(out)@.len() ==> (#[trigger] old(out)@[a]).1 >= (#[trigger] old(out)@[b]).1,
    ensures
        final(out)@.len() == old(out)@.len() + 1,
        forall|a: int, b: int|
            0 <= a < b < final(out)@.len() ==> (#[trigger] final(out)@[a]).1 >= (#[trigger] final(out)@[b]).1,
        final(out)@.to_multiset() == old(out)@.to_multiset().insert(x),
        sum_pairs(final(out)@) == sum_pairs(old(out)@) + x.1,
{
    let ghost pre = out@;
    let m = out.len();
    let mut p: usize = 0;
    let mut done: bool = false;
    while !done && p < m
        invariant
            out@ == pre,
            m == pre.len(),
            p <= m,
            forall|u: int| 0 <= u < p ==> (#[trigger] pre[u]).1 >= x.1,
            done ==> p < m && pre[p as int].1 < x.1,
            forall|a: int, b: int|
                0 <= a < b < pre.len() ==> (#[trigger] pre[a]).1 >= (#[trigger] pre[b]).1,
        decreases m - p, (if done { 0int } else { 1int }),
    {
        if out[p].1 >= x.1 {
            p += 1;
        } else {
            done = true;
        }
    }
    out.insert(p, x);
    proof {
        pre.insert_ensures(p as int, x);
        lemma_insert_multiset(pre, p as int, x);
        lemma_sum_insert(pre, p as int, x);
        assert forall|a: int, b: int| 0 <= a < b < out@.len() implies (#[trigger] out@[a]).1
            >= (#[trigger] out@[b]).1 by {
            if b < p {
            } else if a > p {
                assert(out@[a] == pre[a - 1] && out@[b] == pre[b - 1]);
            } else if a < p && b == p {
                assert(out@[a] == pre[a] && out@[b] == x);
            } else if a < p && b > p {
                assert(out@[a] == pre[a] && out@[b] == pre[b - 1]);
                if b - 1 == p {
                    assert(pre[a].1 >= x.1);
                    assert(x.1 > pre[p as int].1);
                }
            } else if a == p && b > p {
                assert(out@[a] == x && out@[b] == pre[b - 1]);
                assert(p < pre.len());
                if b - 1 > p {
                    assert(pre[p as int].1 >= pre[b - 1].1);
                }
                assert(x.1 > pre[p as int].1);
            }
        }
    }
}

/// The attribute type distribution of one column over all items: every
/// occurring type with its exact count, ordered by falling count.
fn distribution_for_key(items: &Vec<Item>, key: &String) -> (r: Vec<(AttributeType, usize)>)
    ensures
        dist_ok(items@, key@, r@),
        sum_pairs(r@) == items@.len(),
{
    broadcast use vstd::seq_lib::group_to_multiset_ensures;
    broadcast use vstd::multiset::group_multiset_axioms;

    let acc = collect_distribution_counts(items, key);
    let n = acc.len();
    let mut out: Vec<(AttributeType, usize)> = Vec::new();
    let mut i: usize = 0;
    while i < n
        invariant
            n == acc@.len(),
            dist_counts_ok(items@, key@, acc@),
            i <= n,
            out@.len() == i,
            out@.to_multiset() == acc@.subrange(0, i as int).to_multiset(),
            sum_pairs(out@) == sum_pairs(acc@.subrange(0, i as int)),
            forall|a: int, b: int|
                0 <= a < b < out@.len() ==> (#[trigger] out@[a]).1 >= (#[trigger] out@[b]).1,
        decreases n - i,
    {
        let x = acc[i];
        insert_pair_sorted(&mut out, x);
        proof {
            broadcast use vstd::seq_lib::group_to_multiset_ensures;

            assert(acc@.subrange(0, i + 1) =~= acc@.subrange(0, i as int).push(acc@[i as int]));
            assert(acc@.subrange(0, i + 1).drop_last() =~= acc@.subrange(0, i as int));
        }
        i += 1;
    }
    proof {
        broadcast use vstd::seq_lib::group_to_multiset_ensures;

        assert(acc@.subrange(0, n as int) =~= acc@);
        assert forall|p: int| 0 <= p < out@.len() implies (#[trigger] out@[p]).1 == kind_count(
            items@,
            key@,
            out@[p].0,
            items@.len() as int,
        ) && out@[p].1 >= 1 by {
            assert(out@.contains(out@[p]));
            assert(out@.to_multiset().count(out@[p]) > 0);
            assert(acc@.contains(out@[p]));
            let j = choose|j: int| 0 <= j < acc@.len() && acc@[j] == out@[p];
        }
        assert forall|t: AttributeType|
            kind_count(items@, key@, t, items@.len() as int) >= 1 implies exists|p: int|
            0 <= p < out@.len() && (#[trigger] out@[p]).0 == t by {
            let j = choose|j: int| 0 <= j < acc@.len() && (#[trigger] acc@[j]).0 == t;
            assert(acc@.contains(acc@[j]));
            assert(acc@.to_multiset().count(acc@[j]) > 0);
            assert(out@.contains(acc@[j]));
            let p = choose|p: int| 0 <= p < out@.len() && out@[p] == acc@[j];
            assert(out@[p].0 == t);
        }
        assert forall|p: int, q: int| 0 <= p < q < out@.len() implies (#[trigger] out@[p]).0 != (
        #[trigger] out@[q]).0 by {
            assert(out@.contains(out@[p]));
            assert(out@.contains(out@[q]));
            assert(acc@.contains(out@[p]));
            assert(acc@.contains(out@[q]));
            let jp = choose|jp: int| 0 <= jp < acc@.len() && acc@[jp] == out@[p];
            let jq = choose|jq: int| 0 <= jq < acc@.len() && acc@[jq] == out@[q];
            if out@[p].0 == out@[q].0 {
                if jp != jq {
                    assert(acc@[jp].0 != acc@[jq].0);
                } else {
                    assert(out@[p] == out@[q]);
                    assert(out@.remove(q).to_multiset() =~= out@.to_multiset().remove(out@[q]));
                    assert(out@.remove(q)[p] == out@[p]);
                    assert(out@.remove(q).contains(out@[p]));
                    assert(out@.remove(q).to_multiset().count(out@[p]) > 0);
                    assert(out@.to_multiset().count(out@[p]) >= 2);
                    assert(acc@.to_multiset().count(out@[p]) >= 2);
                    assert(acc@.remove(jp).to_multiset() =~= acc@.to_multiset().remove(acc@[jp]));
                    assert(acc@.remove(jp).to_multiset().count(out@[p]) >= 1);
                    assert(acc@.remove(jp).contains(out@[p]));
                    let jr = choose|jr: int|
                        0 <= jr < acc@.remove(jp).len() && acc@.remove(jp)[jr] == out@[p];
                    if jr < jp {
                        assert(acc@[jr] == out@[p]);
                        assert(acc@[jr].0 != acc@[jp].0);
                    } else {
                        assert(acc@[jr + 1] == out@[p]);
                        assert(acc@[jr + 1].0 != acc@[jp].0);
                    }
                }
            }
        }
    }
    out
}

impl TableInsight {
    /// Aggregates the report over a loaded table: one distribution per column,
    /// the columns carrying every attribute name occurring in the items in the
    /// schema's order, each with its exact per-type counts.
    pub fn new(table_description: &TableDescription, items: &Vec<Item>) -> (r: TableInsight)
        ensures
            r.table_name@ == table_description.table_name@,
            r.total_items == items@.len(),
            forall|d: int|
                0 <= d < r.attribute_distributions@.len() ==> dist_ok(
                    items@,
                    (#[trigger] r.attribute_distributions@[d]).attribute_name@,
                    r.attribute_distributions@[d].distributions@,
                ),
            forall|x: Seq<char>| #[trigger] some_item_has_key(items@, x) ==> exists|d: int|
                0 <= d < r.attribute_distributions@.len() && (
                #[trigger] r.attribute_distributions@[d]).attribute_name@ == x,
            forall|d: int|
                0 <= d < r.attribute_distributions@.len() ==> some_item_has_key(
                    items@,
                    (#[trigger] r.attribute_distributions@[d]).attribute_name@,
                ),
            forall|d: int|
                0 <= d < r.attribute_distributions@.len() ==> sum_pairs(
                    (#[trigger] r.attribute_distributions@[d]).distributions@,
                ) == items@.len(),
            forall|d1: int, d2: int|
                0 <= d1 < d2 < r.attribute_distributions@.len() ==> key_le(
                    table_description.key_schema_type,
                    (#[trigger] r.attribute_distributions@[d1]).attribute_name@,
                    (#[trigger] r.attribute_distributions@[d2]).attribute_name@,
                ) && r.attribute_distributions@[d1].attribute_name@
                    != r.attribute_distributions@[d2].attribute_name@,
    {
        let keys = list_attribute_keys(items, &table_description.key_schema_type);
        let nkeys = keys.len();
        let mut distributions: Vec<AttributeDistribution> = Vec::new();
        let mut c: usize = 0;
        while c < nkeys
            invariant
                nkeys == keys@.len(),
                c <= nkeys,
                distributions@.len() == c,
                forall|d: int|
                    0 <= d < c ==> (#[trigger] distributions@[d]).attribute_name@ == keys@[d]@,
                forall|d: int|
                    0 <= d < c ==> dist_ok(
                        items@,
                        (#[trigger] distributions@[d]).attribute_name@,
                        distributions@[d].distributions@,
                    ),
                forall|d: int|
                    0 <= d < c ==> sum_pairs((#[trigger] distributions@[d]).distributions@)
                        == items@.len(),
                vstd::relations::sorted_by(
                    keys@,
                    key_lt_on(table_description.key_schema_type),
                ),
            decreases nkeys - c,
        {
            let pairs = distribution_for_key(items, &keys[c]);
            distributions.push(
                AttributeDistribution { attribute_name: keys[c].clone(), distributions: pairs },
            );
            c += 1;
        }
        let result = TableInsight {
            table_name: table_description.table_name.clone(),
            total_items: items.len(),
            attribute_distributions: distributions,
        };
        proof {
            assert forall|x: Seq<char>| #[trigger] some_item_has_key(items@, x) implies exists|
                d: int,
            |
                0 <= d < result.attribute_distributions@.len() && (
                #[trigger] result.attribute_distributions@[d]).attribute_name@ == x by {
                assert(crate::data::has_name(keys@, x));
                let k = choose|k: int| 0 <= k < keys@.len() && (#[trigger] keys@[k])@ == x;
                assert(result.attribute_distributions@[k].attribute_name@ == x);
            }
            assert forall|d: int| 0 <= d < result.attribute_distributions@.len() implies
                some_item_has_key(
                items@,
                (#[trigger] result.attribute_distributions@[d]).attribute_name@,
            ) by {
                assert(result.attribute_distributions@[d].attribute_name@ == keys@[d]@);
                assert(crate::data::has_name(keys@, keys@[d]@));
            }
            assert forall|d1: int, d2: int|
                0 <= d1 < d2 < result.attribute_distributions@.len() implies key_le(
                table_description.key_schema_type,
                (#[trigger] result.attribute_distributions@[d1]).attribute_name@,
                (#[trigger] result.attribute_distributions@[d2]).attribute_name@,
            ) && result.attribute_distributions@[d1].attribute_name@
                != result.attribute_distributions@[d2].attribute_name@ by {
                let lt = key_lt_on(table_description.key_schema_type);
                assert(lt(keys@[d1], keys@[d2]));
            }
        }
        result
    }
}

} // verus!
