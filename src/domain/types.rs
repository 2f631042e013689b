//! Validated values (identifiers, name, notes, quantity, version) and the item
//! entity built from them.
use crate::text::{decimal, decimal_text, parse_u32, read_u32};
use rand::Rng;
use unicode_segmentation::UnicodeSegmentation;
use vstd::prelude::*;

verus! {

/// Integer type of table and item identifiers.
pub type IdType = u32;

/// Integer type of an ordered quantity.
pub type QuantityType = u32;

/// Integer type of an item's version.
pub type VersionType = u32;

/// Smallest valid table id.
pub const MIN_TABLE_ID: u32 = 1;

/// Largest valid table id.
pub const MAX_TABLE_ID: u32 = 100;

/// Largest number of graphemes in an item name.
pub const MAX_NAME_GRAPHEMES: usize = 100;

/// Largest number of graphemes in item notes.
pub const MAX_NOTES_GRAPHEMES: usize = 256;

/// Fewest minutes that preparing an item is estimated to take.
pub const MIN_PREPARE_MINUTES: i64 = 1;

/// Bound (exclusive) of the minutes that preparing an item is estimated to take.
pub const PREPARE_MINUTES_BOUND: i64 = 16;

// ---------------------------------------------------------------------------
// Outside computations
// ---------------------------------------------------------------------------

/// The number of extended grapheme clusters in `s`.
pub uninterp spec fn grapheme_count(s: Seq<char>) -> nat;

/// Relies on unicode_segmentation's `str::graphemes(true)`: counts the extended
/// grapheme clusters of `s`, which depend on its characters alone. The clusters
/// are non-empty and cover `s`, so there are no more of them than characters,
/// and none exactly when `s` is empty.
#[verifier::external_body]
fn count_graphemes(s: &str) -> (r: usize)
    ensures
        r == grapheme_count(s@),
        r <= s@.len(),
        (r == 0) == (s@.len() == 0),
{
    s.graphemes(true).count()
}

/// Whether `c` has Unicode's White_Space property, which `char::is_whitespace`
/// tests: tab to carriage return, space, next line, no-break space, ogham space
/// mark, en quad to hair space, line and paragraph separators, narrow no-break
/// space, medium mathematical space and ideographic space.
pub open spec fn is_white_space(c: char) -> bool {
    let u = c as u32;
    (0x09 <= u <= 0x0D) || u == 0x20 || u == 0x85 || u == 0xA0 || u == 0x1680 || (0x2000 <= u
        <= 0x200A) || u == 0x2028 || u == 0x2029 || u == 0x202F || u == 0x205F || u == 0x3000
}

fn white_space(c: char) -> (r: bool)
    ensures
        r == is_white_space(c),
{
    let u = c as u32;
    (0x09 <= u && u <= 0x0D) || u == 0x20 || u == 0x85 || u == 0xA0 || u == 0x1680 || (0x2000
        <= u && u <= 0x200A) || u == 0x2028 || u == 0x2029 || u == 0x202F || u == 0x205F || u
        == 0x3000
}

/// Relies on rand's `thread_rng().gen_range(lo..hi)`: a number in `lo..hi`.
/// It panics on an empty range, which `requires` rules out.
#[verifier::external_body]
fn random_in_range(lo: i64, hi: i64) -> (r: i64)
    requires
        lo < hi,
    ensures
        lo <= r < hi,
{
    rand::thread_rng().gen_range(lo..hi)
}

/// Relies on chrono: `Utc::now() + Duration::minutes(minutes)`, written by the
/// `Display` of `DateTime`, which writes the date and time, a space and the
/// offset, so the text is never empty. The bound keeps both the duration and
/// the sum inside chrono's range, where neither panics.
#[verifier::external_body]
fn now_plus_minutes_text(minutes: i64) -> (r: String)
    requires
        0 <= minutes <= 1_000_000,
    ensures
        r@.len() > 0,
{
    (chrono::Utc::now() + chrono::Duration::minutes(minutes)).to_string()
}

// ---------------------------------------------------------------------------
// Text rules
// ---------------------------------------------------------------------------

/// The characters that names and notes may not hold.
pub open spec fn is_forbidden(c: char) -> bool {
    c == '/' || c == '(' || c == ')' || c == '"' || c == '<' || c == '>' || c == '\\' || c == '{'
        || c == '}'
}

pub open spec fn has_forbidden(s: Seq<char>) -> bool {
    exists|i: int| 0 <= i < s.len() && is_forbidden(#[trigger] s[i])
}

/// Empty, or white space only: what is left after trimming white space is empty.
pub open spec fn is_blank(s: Seq<char>) -> bool {
    forall|i: int| 0 <= i < s.len() ==> is_white_space(#[trigger] s[i])
}

pub open spec fn valid_name(s: Seq<char>) -> bool {
    !is_blank(s) && grapheme_count(s) <= MAX_NAME_GRAPHEMES && !has_forbidden(s)
}

pub open spec fn valid_notes(s: Seq<char>) -> bool {
    grapheme_count(s) <= MAX_NOTES_GRAPHEMES && !has_forbidden(s)
}

fn forbidden_char(c: char) -> (r: bool)
    ensures
        r == is_forbidden(c),
{
    c == '/' || c == '(' || c == ')' || c == '"' || c == '<' || c == '>' || c == '\\' || c == '{'
        || c == '}'
}

fn contains_forbidden(s: &str) -> (r: bool)
    ensures
        r == has_forbidden(s@),
{
    let n = s.unicode_len();
    let mut i: usize = 0;
    while i < n
        invariant
            i <= n,
            n == s@.len(),
            forall|j: int| 0 <= j < i ==> !is_forbidden(#[trigger] s@[j]),
        decreases n - i,
    {
        if forbidden_char(s.get_char(i)) {
            return true;
        }
        i = i + 1;
    }
    false
}

fn blank(s: &str) -> (r: bool)
    ensures
        r == is_blank(s@),
{
    let n = s.unicode_len();
    let mut i: usize = 0;
    while i < n
        invariant
            i <= n,
            n == s@.len(),
            forall|j: int| 0 <= j < i ==> is_white_space(#[trigger] s@[j]),
        decreases n - i,
    {
        if !white_space(s.get_char(i)) {
            return false;
        }
        i = i + 1;
    }
    true
}

/// `'` + `s` + `tail`.
pub(crate) fn quoted(s: &str, tail: &str) -> (r: String)
    ensures
        r@ == "'"@ + s@ + tail@,
{
    let mut r = String::from_str("'");
    r.append(s);
    r.append(tail);
    r
}

/// `s` + `tail`.
fn joined(s: &str, tail: &str) -> (r: String)
    ensures
        r@ == s@ + tail@,
{
    let mut r = String::from_str(s);
    r.append(tail);
    r
}

pub open spec fn item_id_error(s: Seq<char>) -> Seq<char> {
    "'"@ + s + "' is not a valid item id."@
}

pub open spec fn table_id_error(s: Seq<char>) -> Seq<char> {
    s + " is not a valid table id."@
}

pub open spec fn name_error(s: Seq<char>) -> Seq<char> {
    "'"@ + s + "' is not a valid item name."@
}

pub open spec fn notes_error(s: Seq<char>) -> Seq<char> {
    s + " is not a valid notes."@
}

pub open spec fn quantity_error(s: Seq<char>) -> Seq<char> {
    "'"@ + s + "' is not a valid quantity value."@
}

pub open spec fn version_error(s: Seq<char>) -> Seq<char> {
    "'"@ + s + "' is not a valid version number."@
}

// ---------------------------------------------------------------------------
// Identifiers
// ---------------------------------------------------------------------------

/// Identifies an item within a table; valid when greater than zero.
#[derive(PartialEq, Eq, Structural, Hash, Debug, Copy, Clone)]
pub struct ItemId<T>(pub T);

/// Identifies a table; valid from `MIN_TABLE_ID` to `MAX_TABLE_ID`.
#[derive(PartialEq, Eq, Structural, Hash, Debug, Copy, Clone)]
pub struct TableId<T>(pub T);

impl ItemId<IdType> {
    /// What `parse` accepts: greater than zero.
    pub open spec fn valid(self) -> bool {
        self.0 > 0
    }

    /// Reads an item id: a `u32` greater than zero.
    pub fn parse(s: String) -> (r: Result<Self, String>)
        ensures
            match parse_u32(s@) {
                Some(v) if v > 0 => r == Ok::<Self, String>(ItemId(v)),
                _ => r matches Err(e) && e@ == item_id_error(s@),
            },
    {
        match read_u32(s.as_str()) {
            Some(v) => {
                if v > 0 {
                    Ok(ItemId(v))
                } else {
                    Err(quoted(s.as_str(), "' is not a valid item id."))
                }
            },
            None => Err(quoted(s.as_str(), "' is not a valid item id.")),
        }
    }

    /// The id's value.
    pub fn value(&self) -> (r: IdType)
        ensures
            r == self.0,
    {
        self.0
    }

    /// The id's decimal text.
    pub fn to_string(&self) -> (r: String)
        ensures
            r@ == decimal(self.0 as nat),
    {
        decimal_text(self.0 as u64)
    }

    pub fn id_one() -> (r: Self)
        ensures
            r.0 == 1,
    {
        ItemId(1)
    }

    pub fn from_int(number: u32) -> (r: Self)
        ensures
            r.0 == number,
    {
        ItemId(number)
    }
}

impl TableId<IdType> {
    /// What `parse` accepts: from `MIN_TABLE_ID` to `MAX_TABLE_ID`.
    pub open spec fn valid(self) -> bool {
        MIN_TABLE_ID <= self.0 <= MAX_TABLE_ID
    }

    /// Reads a table id: a `u32` from `MIN_TABLE_ID` to `MAX_TABLE_ID`.
    pub fn parse(s: String) -> (r: Result<Self, String>)
        ensures
            match parse_u32(s@) {
                Some(v) if MIN_TABLE_ID <= v <= MAX_TABLE_ID => r == Ok::<Self, String>(TableId(v)),
                _ => r matches Err(e) && e@ == table_id_error(s@),
            },
    {
        match read_u32(s.as_str()) {
            Some(v) => {
                if MIN_TABLE_ID <= v && v <= MAX_TABLE_ID {
                    Ok(TableId(v))
                } else {
                    Err(joined(s.as_str(), " is not a valid table id."))
                }
            },
            None => Err(joined(s.as_str(), " is not a valid table id.")),
        }
    }

    /// The id's value.
    pub fn value(&self) -> (r: IdType)
        ensures
            r == self.0,
    {
        self.0
    }

    /// The id's decimal text.
    pub fn to_string(&self) -> (r: String)
        ensures
            r@ == decimal(self.0 as nat),
    {
        decimal_text(self.0 as u64)
    }

    pub fn id_one() -> (r: Self)
        ensures
            r.0 == 1,
    {
        TableId(1)
    }

    pub fn from_int(number: u32) -> (r: Self)
        ensures
            r.0 == number,
    {
        TableId(number)
    }
}

impl TryFrom<String> for ItemId<IdType> {
    type Error = String;

    fn try_from(s: String) -> (r: Result<Self, Self::Error>)
        ensures
            match parse_u32(s@) {
                Some(v) if v > 0 => r == Ok::<Self, String>(ItemId(v)),
                _ => r matches Err(e) && e@ == item_id_error(s@),
            },
    {
        Self::parse(s)
    }
}

/// The error text cannot be written as a spec value, so the contract stands on
/// `try_from` itself rather than here.
impl vstd::std_specs::convert::TryFromSpecImpl<String> for ItemId<IdType> {
    open spec fn obeys_try_from_spec() -> bool {
        false
    }

    open spec fn try_from_spec(v: String) -> Result<Self, String> {
        Err(v)
    }
}

impl TryFrom<String> for TableId<IdType> {
    type Error = String;

    fn try_from(s: String) -> (r: Result<Self, Self::Error>)
        ensures
            match parse_u32(s@) {
                Some(v) if MIN_TABLE_ID <= v <= MAX_TABLE_ID => r == Ok::<Self, String>(TableId(v)),
                _ => r matches Err(e) && e@ == table_id_error(s@),
            },
    {
        Self::parse(s)
    }
}

/// The error text cannot be written as a spec value, so the contract stands on
/// `try_from` itself rather than here.
impl vstd::std_specs::convert::TryFromSpecImpl<String> for TableId<IdType> {
    open spec fn obeys_try_from_spec() -> bool {
        false
    }

    open spec fn try_from_spec(v: String) -> Result<Self, String> {
        Err(v)
    }
}

// ---------------------------------------------------------------------------
// Name and notes
// ---------------------------------------------------------------------------

/// What was ordered: not blank, at most `MAX_NAME_GRAPHEMES` graphemes, and
/// none of the forbidden characters.
#[derive(Debug, Clone, PartialEq)]
pub struct ItemName(pub String);

/// A waiter's notes: at most `MAX_NOTES_GRAPHEMES` graphemes and none of the
/// forbidden characters; may be empty.
#[derive(Debug, Clone, PartialEq)]
pub struct ItemNotes(pub String);

impl ItemName {
    /// What `parse` accepts.
    pub open spec fn valid(self) -> bool {
        valid_name(self.0@)
    }

    /// Checks `s` against the rules of a name.
    pub fn parse(s: String) -> (r: Result<Self, String>)
        ensures
            valid_name(s@) ==> r == Ok::<Self, String>(ItemName(s)),
            !valid_name(s@) ==> (r matches Err(e) && e@ == name_error(s@)),
    {
        let is_blank = blank(s.as_str());
        let is_too_long = count_graphemes(s.as_str()) > MAX_NAME_GRAPHEMES;
        let has_forbidden = contains_forbidden(s.as_str());
        if is_blank || is_too_long || has_forbidden {
            Err(quoted(s.as_str(), "' is not a valid item name."))
        } else {
            Ok(ItemName(s))
        }
    }

    /// A copy of this name.
    pub fn duplicate(&self) -> (r: Self)
        ensures
            r == *self,
    {
        ItemName(self.0.clone())
    }

    pub fn pizza() -> (r: Self)
        ensures
            r.0@ == "Some pizza"@,
    {
        ItemName(String::from_str("Some pizza"))
    }

    pub fn pasta() -> (r: Self)
        ensures
            r.0@ == "Some pasta"@,
    {
        ItemName(String::from_str("Some pasta"))
    }

    /// An empty name, which `parse` would refuse.
    pub fn bad() -> (r: Self)
        ensures
            r.0@.len() == 0,
    {
        ItemName(String::new())
    }

    /// Takes `s` as it is, unchecked.
    pub fn from_str(s: String) -> (r: Self)
        ensures
            r.0 == s,
    {
        ItemName(s)
    }
}

impl ItemNotes {
    /// What `parse` accepts.
    pub open spec fn valid(self) -> bool {
        valid_notes(self.0@)
    }

    /// Checks `s` against the rules of notes.
    pub fn parse(s: String) -> (r: Result<Self, String>)
        ensures
            valid_notes(s@) ==> r == Ok::<Self, String>(ItemNotes(s)),
            !valid_notes(s@) ==> (r matches Err(e) && e@ == notes_error(s@)),
    {
        let is_too_long = count_graphemes(s.as_str()) > MAX_NOTES_GRAPHEMES;
        let has_forbidden = contains_forbidden(s.as_str());
        if is_too_long || has_forbidden {
            Err(joined(s.as_str(), " is not a valid notes."))
        } else {
            Ok(ItemNotes(s))
        }
    }

    /// A copy of these notes.
    pub fn duplicate(&self) -> (r: Self)
        ensures
            r == *self,
    {
        ItemNotes(self.0.clone())
    }

    pub fn some_notes() -> (r: Self)
        ensures
            r.0@ == "Some notes"@,
    {
        ItemNotes(String::from_str("Some notes"))
    }

    pub fn other_notes() -> (r: Self)
        ensures
            r.0@ == "Some other notes"@,
    {
        ItemNotes(String::from_str("Some other notes"))
    }

    /// Takes `s` as it is, unchecked.
    pub fn from_str(s: String) -> (r: Self)
        ensures
            r.0 == s,
    {
        ItemNotes(s)
    }
}

impl TryFrom<String> for ItemName {
    type Error = String;

    fn try_from(s: String) -> (r: Result<Self, Self::Error>)
        ensures
            valid_name(s@) ==> r == Ok::<Self, String>(ItemName(s)),
            !valid_name(s@) ==> (r matches Err(e) && e@ == name_error(s@)),
    {
        ItemName::parse(s)
    }
}

/// The error text cannot be written as a spec value, so the contract stands on
/// `try_from` itself rather than here.
impl vstd::std_specs::convert::TryFromSpecImpl<String> for ItemName {
    open spec fn obeys_try_from_spec() -> bool {
        false
    }

    open spec fn try_from_spec(v: String) -> Result<Self, String> {
        Err(v)
    }
}

impl TryFrom<String> for ItemNotes {
    type Error = String;

    fn try_from(s: String) -> (r: Result<Self, Self::Error>)
        ensures
            valid_notes(s@) ==> r == Ok::<Self, String>(ItemNotes(s)),
            !valid_notes(s@) ==> (r matches Err(e) && e@ == notes_error(s@)),
    {
        Self::parse(s)
    }
}

/// The error text cannot be written as a spec value, so the contract stands on
/// `try_from` itself rather than here.
impl vstd::std_specs::convert::TryFromSpecImpl<String> for ItemNotes {
    open spec fn obeys_try_from_spec() -> bool {
        false
    }

    open spec fn try_from_spec(v: String) -> Result<Self, String> {
        Err(v)
    }
}

// ---------------------------------------------------------------------------
// Quantity and version
// ---------------------------------------------------------------------------

/// How many of an item were ordered.
#[derive(PartialEq, Eq, Structural, Debug, Copy, Clone)]
pub struct ItemQuantity<T>(pub T);

/// The version of an item, for optimistic concurrency.
#[derive(PartialEq, Eq, Structural, Debug, Copy, Clone)]
pub struct ItemVersion<T>(pub T);

impl ItemQuantity<QuantityType> {
    /// Reads a quantity: any `u32`.
    pub fn parse(s: String) -> (r: Result<Self, String>)
        ensures
            match parse_u32(s@) {
                Some(v) => r == Ok::<Self, String>(ItemQuantity(v)),
                None => r matches Err(e) && e@ == quantity_error(s@),
            },
    {
        match read_u32(s.as_str()) {
            Some(v) => Ok(ItemQuantity(v)),
            None => Err(quoted(s.as_str(), "' is not a valid quantity value.")),
        }
    }

    /// The quantity's value.
    pub fn value(&self) -> (r: QuantityType)
        ensures
            r == self.0,
    {
        self.0
    }

    pub fn one() -> (r: Self)
        ensures
            r.0 == 1,
    {
        ItemQuantity(1)
    }

    pub fn two() -> (r: Self)
        ensures
            r.0 == 2,
    {
        ItemQuantity(2)
    }

    pub fn from_int(number: u32) -> (r: Self)
        ensures
            r.0 == number,
    {
        ItemQuantity(number)
    }
}

impl ItemVersion<VersionType> {
    /// Reads a version: any `u32`.
    pub fn parse(s: String) -> (r: Result<Self, String>)
        ensures
            match parse_u32(s@) {
                Some(v) => r == Ok::<Self, String>(ItemVersion(v)),
                None => r matches Err(e) && e@ == version_error(s@),
            },
    {
        match read_u32(s.as_str()) {
            Some(v) => Ok(ItemVersion(v)),
            None => Err(quoted(s.as_str(), "' is not a valid version number.")),
        }
    }

    /// The version's value.
    pub fn value(&self) -> (r: VersionType)
        ensures
            r == self.0,
    {
        self.0
    }

    /// The version's decimal text.
    pub fn to_string(&self) -> (r: String)
        ensures
            r@ == decimal(self.0 as nat),
    {
        decimal_text(self.0 as u64)
    }

    /// The next version, where there is one.
    pub fn next(&self) -> (r: Option<Self>)
        ensures
            self.0 < u32::MAX ==> r == Some(ItemVersion((self.0 + 1) as u32)),
            self.0 == u32::MAX ==> r is None,
    {
        if self.0 < u32::MAX {
            Some(ItemVersion(self.0 + 1))
        } else {
            None
        }
    }

    pub fn from_int(number: u32) -> (r: Self)
        ensures
            r.0 == number,
    {
        ItemVersion(number)
    }

    pub fn ver_one() -> (r: Self)
        ensures
            r.0 == 1,
    {
        ItemVersion(1)
    }
}

impl TryFrom<String> for ItemQuantity<QuantityType> {
    type Error = String;

    fn try_from(s: String) -> (r: Result<Self, Self::Error>)
        ensures
            match parse_u32(s@) {
                Some(v) => r == Ok::<Self, String>(ItemQuantity(v)),
                None => r matches Err(e) && e@ == quantity_error(s@),
            },
    {
        Self::parse(s)
    }
}

/// The error text cannot be written as a spec value, so the contract stands on
/// `try_from` itself rather than here.
impl vstd::std_specs::convert::TryFromSpecImpl<String> for ItemQuantity<QuantityType> {
    open spec fn obeys_try_from_spec() -> bool {
        false
    }

    open spec fn try_from_spec(v: String) -> Result<Self, String> {
        Err(v)
    }
}

impl TryFrom<String> for ItemVersion<VersionType> {
    type Error = String;

    fn try_from(s: String) -> (r: Result<Self, Self::Error>)
        ensures
            match parse_u32(s@) {
                Some(v) => r == Ok::<Self, String>(ItemVersion(v)),
                None => r matches Err(e) && e@ == version_error(s@),
            },
    {
        Self::parse(s)
    }
}

/// The error text cannot be written as a spec value, so the contract stands on
/// `try_from` itself rather than here.
impl vstd::std_specs::convert::TryFromSpecImpl<String> for ItemVersion<VersionType> {
    open spec fn obeys_try_from_spec() -> bool {
        false
    }

    open spec fn try_from_spec(v: String) -> Result<Self, String> {
        Err(v)
    }
}

// ---------------------------------------------------------------------------
// The item
// ---------------------------------------------------------------------------

/// An order line at a table.
#[derive(Debug, Clone)]
pub struct Item {
    pub id: ItemId<IdType>,
    pub name: ItemName,
    pub notes: ItemNotes,
    pub quantity: ItemQuantity<QuantityType>,
    /// Soft-delete mark: a deleted item stays stored but is hidden.
    pub deleted: bool,
    pub version: ItemVersion<VersionType>,
    /// When the item is estimated to be ready.
    pub time_to_prepare: String,
}

/// `a` and `b` agree on every field but the preparation time.
pub open spec fn same_but_time(a: Item, b: Item) -> bool {
    &&& a.id == b.id
    &&& a.name == b.name
    &&& a.notes == b.notes
    &&& a.quantity == b.quantity
    &&& a.deleted == b.deleted
    &&& a.version == b.version
}

/// `it` with the preparation time `time`.
pub open spec fn with_time(it: Item, time: String) -> Item {
    Item {
        id: it.id,
        name: it.name,
        notes: it.notes,
        quantity: it.quantity,
        deleted: it.deleted,
        version: it.version,
        time_to_prepare: time,
    }
}

impl Item {
    /// Every validated field passes its rules (quantity and version are any `u32`).
    pub open spec fn valid(self) -> bool {
        self.id.valid() && self.name.valid() && self.notes.valid()
    }

    pub fn new(
        item_id: ItemId<IdType>,
        item_name: ItemName,
        item_notes: ItemNotes,
        item_quantity: ItemQuantity<QuantityType>,
        item_deleted: bool,
        item_version: ItemVersion<VersionType>,
        item_time_to_prepare: String,
    ) -> (r: Self)
        ensures
            r == (Item {
                id: item_id,
                name: item_name,
                notes: item_notes,
                quantity: item_quantity,
                deleted: item_deleted,
                version: item_version,
                time_to_prepare: item_time_to_prepare,
            }),
    {
        Self {
            id: item_id,
            name: item_name,
            notes: item_notes,
            quantity: item_quantity,
            deleted: item_deleted,
            version: item_version,
            time_to_prepare: item_time_to_prepare,
        }
    }

    /// A copy of this item.
    pub fn duplicate(&self) -> (r: Self)
        ensures
            r == *self,
    {
        Item {
            id: self.id,
            name: self.name.duplicate(),
            notes: self.notes.duplicate(),
            quantity: self.quantity,
            deleted: self.deleted,
            version: self.version,
            time_to_prepare: self.time_to_prepare.clone(),
        }
    }

    /// Sets the preparation time to now plus a random number of minutes, from
    /// `MIN_PREPARE_MINUTES` up to but not including `PREPARE_MINUTES_BOUND`.
    pub fn gen_time_to_prepare(&mut self)
        ensures
            same_but_time(*final(self), *old(self)),
            final(self).time_to_prepare@.len() > 0,
    {
        let minutes = random_in_range(MIN_PREPARE_MINUTES, PREPARE_MINUTES_BOUND);
        self.time_to_prepare = now_plus_minutes_text(minutes);
    }
}

} // verus!
