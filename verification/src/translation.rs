//! Per-field translations: the two mutually exclusive record shapes, the
//! resolver that disambiguates between them, the lookup keys, and the
//! translation index the localization overlay queries.

use vstd::prelude::*;

use crate::Error;

verus! {

/// One named field of a raw record: the field's name and its text, or an
/// explicit absent value for a field that was present without text.
#[derive(Debug, Clone)]
pub struct FieldEntry {
    pub name: String,
    pub value: Option<String>,
}

/// The mathematical shadow of a [`FieldEntry`].
#[verifier::ext_equal]
pub struct FieldEntryView {
    pub name: Seq<char>,
    pub value: Option<Seq<char>>,
}

impl View for FieldEntry {
    type V = FieldEntryView;

    open spec fn view(&self) -> FieldEntryView {
        FieldEntryView {
            name: self.name@,
            value: match self.value {
                None => None,
                Some(s) => Some(s@),
            },
        }
    }
}

/// The views of a record's fields, in record order.
pub open spec fn field_views(s: Seq<FieldEntry>) -> Seq<FieldEntryView> {
    s.map_values(|e: FieldEntry| e@)
}

/// Whether some field of the record carries `name`.
pub open spec fn field_seen(fields: Seq<FieldEntryView>, name: Seq<char>) -> bool
    decreases fields.len(),
{
    if fields.len() == 0 {
        false
    } else if fields.last().name == name {
        true
    } else {
        field_seen(fields.drop_last(), name)
    }
}

/// The value of the last field of the record that carries `name`; later
/// occurrences of a repeated field win.
pub open spec fn last_field_value(fields: Seq<FieldEntryView>, name: Seq<char>) -> Option<
    Seq<char>,
>
    decreases fields.len(),
{
    if fields.len() == 0 {
        None
    } else if fields.last().name == name {
        fields.last().value
    } else {
        last_field_value(fields.drop_last(), name)
    }
}

/// The fields of the two translation shapes that must carry text when they
/// appear at all; one appearing with an absent value fails the record.
pub open spec fn is_required_text_field(name: Seq<char>) -> bool {
    name == "table_name"@ || name == "field_name"@ || name == "language"@ || name
        == "translation"@ || name == "trans_id"@ || name == "lang"@
}

/// Whether the record has a text-only field that carries no text.
pub open spec fn has_text_field_without_value(fields: Seq<FieldEntryView>) -> bool {
    exists|i: int|
        0 <= i < fields.len() && is_required_text_field(#[trigger] fields[i].name)
            && fields[i].value is None
}

/// The generic translation shape, keyed by table, field, language and
/// record.
#[derive(Debug, Clone, PartialEq)]
pub struct GtfsTranslation {
    pub table_name: String,
    pub field_name: String,
    pub language: String,
    pub translation: String,
    pub record_id: Option<String>,
    pub record_sub_id: Option<String>,
    pub field_value: Option<String>,
}

/// The mathematical shadow of a [`GtfsTranslation`].
#[verifier::ext_equal]
pub struct GtfsTranslationView {
    pub table_name: Seq<char>,
    pub field_name: Seq<char>,
    pub language: Seq<char>,
    pub translation: Seq<char>,
    pub record_id: Option<Seq<char>>,
    pub record_sub_id: Option<Seq<char>>,
    pub field_value: Option<Seq<char>>,
}

impl View for GtfsTranslation {
    type V = GtfsTranslationView;

    open spec fn view(&self) -> GtfsTranslationView {
        GtfsTranslationView {
            table_name: self.table_name@,
            field_name: self.field_name@,
            language: self.language@,
            translation: self.translation@,
            record_id: match self.record_id {
                None => None,
                Some(s) => Some(s@),
            },
            record_sub_id: match self.record_sub_id {
                None => None,
                Some(s) => Some(s@),
            },
            field_value: match self.field_value {
                None => None,
                Some(s) => Some(s@),
            },
        }
    }
}

/// The alternate, compact translation shape, keyed by a translation id and
/// a language.
#[derive(Debug, Clone, PartialEq)]
pub struct NmbsTranslation {
    pub trans_id: String,
    pub lang: String,
    pub translation: String,
}

/// The mathematical shadow of an [`NmbsTranslation`].
#[verifier::ext_equal]
pub struct NmbsTranslationView {
    pub trans_id: Seq<char>,
    pub lang: Seq<char>,
    pub translation: Seq<char>,
}

impl View for NmbsTranslation {
    type V = NmbsTranslationView;

    open spec fn view(&self) -> NmbsTranslationView {
        NmbsTranslationView {
            trans_id: self.trans_id@,
            lang: self.lang@,
            translation: self.translation@,
        }
    }
}

/// A resolved translation record: exactly one of the two shapes.
#[derive(Debug, Clone, PartialEq)]
pub enum Translation {
    Gtfs(GtfsTranslation),
    Nmbs(NmbsTranslation),
}

/// The mathematical shadow of a [`Translation`].
#[verifier::ext_equal]
pub enum TranslationView {
    Gtfs(GtfsTranslationView),
    Nmbs(NmbsTranslationView),
}

impl View for Translation {
    type V = TranslationView;

    open spec fn view(&self) -> TranslationView {
        match self {
            Translation::Gtfs(g) => TranslationView::Gtfs(g@),
            Translation::Nmbs(n) => TranslationView::Nmbs(n@),
        }
    }
}

/// What a raw record resolves to. The whole record is scanned once,
/// whatever the declaration order of its fields. When the three
/// alternate-shape fields are all present the record is the alternate
/// shape, even if generic-shape fields are present too: precedence is a
/// disambiguation rule, not a union. Otherwise all seven generic-shape
/// fields must have been seen (the record and value anchors may carry an
/// explicit absent value); failing both, the record does not decode.
pub open spec fn spec_resolve_translation(fields: Seq<FieldEntryView>) -> Option<TranslationView> {
    if has_text_field_without_value(fields) {
        None
    } else if field_seen(fields, "lang"@) && field_seen(fields, "trans_id"@) && field_seen(
        fields,
        "translation"@,
    ) {
        Some(
            TranslationView::Nmbs(
                NmbsTranslationView {
                    trans_id: last_field_value(fields, "trans_id"@)->Some_0,
                    lang: last_field_value(fields, "lang"@)->Some_0,
                    translation: last_field_value(fields, "translation"@)->Some_0,
                },
            ),
        )
    } else if field_seen(fields, "table_name"@) && field_seen(fields, "field_name"@)
        && field_seen(fields, "language"@) && field_seen(fields, "translation"@) && field_seen(
        fields,
        "record_id"@,
    ) && field_seen(fields, "record_sub_id"@) && field_seen(fields, "field_value"@) {
        Some(
            TranslationView::Gtfs(
                GtfsTranslationView {
                    table_name: last_field_value(fields, "table_name"@)->Some_0,
                    field_name: last_field_value(fields, "field_name"@)->Some_0,
                    language: last_field_value(fields, "language"@)->Some_0,
                    translation: last_field_value(fields, "translation"@)->Some_0,
                    record_id: last_field_value(fields, "record_id"@),
                    record_sub_id: last_field_value(fields, "record_sub_id"@),
                    field_value: last_field_value(fields, "field_value"@),
                },
            ),
        )
    } else {
        None
    }
}

/// Compares two texts character by character.
fn str_equal(a: &str, b: &str) -> (r: bool)
    ensures
        r == (a@ == b@),
{
    let na = a.unicode_len();
    let nb = b.unicode_len();
    if na != nb {
        return false;
    }
    let mut i: usize = 0;
    while i < na
        invariant
            i <= na,
            na == a@.len(),
            na == b@.len(),
            forall|j: int| 0 <= j < i ==> a@[j] == b@[j],
        decreases na - i,
    {
        if a.get_char(i) != b.get_char(i) {
            return false;
        }
        i = i + 1;
    }
    proof {
        assert(a@ =~= b@);
    }
    true
}

/// A dropped last entry drops no fault.
proof fn lemma_bad_field_drop_last(fields: Seq<FieldEntryView>)
    requires
        fields.len() > 0,
        !has_text_field_without_value(fields),
    ensures
        !has_text_field_without_value(fields.drop_last()),
{
    assert forall|i: int|
        0 <= i < fields.drop_last().len() implies !(is_required_text_field(
        #[trigger] fields.drop_last()[i].name,
    ) && fields.drop_last()[i].value is None) by {
        assert(fields.drop_last()[i] == fields[i]);
    }
}

/// In a faultless record, a text-only field that was seen carries text.
proof fn lemma_seen_text_value(fields: Seq<FieldEntryView>, name: Seq<char>)
    requires
        !has_text_field_without_value(fields),
        field_seen(fields, name),
        is_required_text_field(name),
    ensures
        last_field_value(fields, name) is Some,
    decreases fields.len(),
{
    if fields.last().name == name {
        assert(!(is_required_text_field(fields[fields.len() - 1].name) && fields[fields.len()
            - 1].value is None));
    } else {
        lemma_bad_field_drop_last(fields);
        lemma_seen_text_value(fields.drop_last(), name);
    }
}

/// Scans the record for a text-only field carrying no text.
fn find_bad_text_field(fields: &Vec<FieldEntry>) -> (r: bool)
    ensures
        r == has_text_field_without_value(field_views(fields@)),
{
    let ghost fvs = field_views(fields@);
    let n = fields.len();
    let mut k: usize = 0;
    while k < n
        invariant
            k <= n,
            n == fields@.len(),
            fvs == field_views(fields@),
            fvs.len() == n,
            forall|j: int|
                0 <= j < k ==> !(is_required_text_field(#[trigger] fvs[j].name)
                    && fvs[j].value is None),
        decreases n - k,
    {
        let e = &fields[k];
        if e.value.is_none() {
            let required = str_equal(e.name.as_str(), "table_name") || str_equal(
                e.name.as_str(),
                "field_name",
            ) || str_equal(e.name.as_str(), "language") || str_equal(e.name.as_str(), "translation")
                || str_equal(e.name.as_str(), "trans_id") || str_equal(e.name.as_str(), "lang");
            proof {
                assert(fvs[k as int] == fields@[k as int]@);
                assert(required == is_required_text_field(fvs[k as int].name));
            }
            if required {
                return true;
            }
        }
        proof {
            assert(fvs[k as int] == fields@[k as int]@);
        }
        k = k + 1;
    }
    false
}

/// Finds the last field of the record carrying `name`, handing back its
/// (possibly explicitly absent) value.
fn find_last_value(fields: &Vec<FieldEntry>, name: &str) -> (r: Option<Option<String>>)
    ensures
        match r {
            None => !field_seen(field_views(fields@), name@),
            Some(v) => field_seen(field_views(fields@), name@) && last_field_value(
                field_views(fields@),
                name@,
            ) == (match v {
                None => None::<Seq<char>>,
                Some(s) => Some(s@),
            }),
        },
{
    let ghost fvs = field_views(fields@);
    let n = fields.len();
    proof {
        assert(fvs.take(n as int) =~= fvs);
    }
    let mut k: usize = n;
    while k > 0
        invariant
            k <= n,
            n == fields@.len(),
            fvs == field_views(fields@),
            fvs.len() == n,
            field_seen(fvs, name@) == field_seen(fvs.take(k as int), name@),
            last_field_value(fvs, name@) == last_field_value(fvs.take(k as int), name@),
        decreases k,
    {
        k = k - 1;
        let e = &fields[k];
        proof {
            assert(fvs[k as int] == fields@[k as int]@);
            assert(fvs.take(k as int + 1).drop_last() =~= fvs.take(k as int));
            assert(fvs.take(k as int + 1).last() == fvs[k as int]);
        }
        if str_equal(e.name.as_str(), name) {
            return Some(e.value.clone());
        }
    }
    proof {
        assert(fvs.take(0) =~= Seq::<FieldEntryView>::empty());
    }
    None
}

/// Resolves one raw record into exactly one of the two translation shapes,
/// or fails with a structural decode error when neither shape's required
/// fields were all seen (or a text-only field carried no text).
pub fn resolve_translation(fields: &Vec<FieldEntry>) -> (r: Result<Translation, Error>)
    ensures
        match r {
            Ok(t) => spec_resolve_translation(field_views(fields@)) == Some(t@),
            Err(e) => spec_resolve_translation(field_views(fields@)) is None && e is Decode,
        },
{
    let ghost fvs = field_views(fields@);
    if find_bad_text_field(fields) {
        return Err(Error::Decode(String::from_str("translation field without text")));
    }
    let lang = find_last_value(fields, "lang");
    let trans_id = find_last_value(fields, "trans_id");
    let translation = find_last_value(fields, "translation");
    if lang.is_some() && trans_id.is_some() && translation.is_some() {
        proof {
            lemma_seen_text_value(fvs, "lang"@);
            lemma_seen_text_value(fvs, "trans_id"@);
            lemma_seen_text_value(fvs, "translation"@);
        }
        let l = lang.unwrap().unwrap();
        let ti = trans_id.unwrap().unwrap();
        let tr = translation.unwrap().unwrap();
        return Ok(Translation::Nmbs(NmbsTranslation { trans_id: ti, lang: l, translation: tr }));
    }
    let table_name = find_last_value(fields, "table_name");
    let field_name = find_last_value(fields, "field_name");
    let language = find_last_value(fields, "language");
    let translation = find_last_value(fields, "translation");
    let record_id = find_last_value(fields, "record_id");
    let record_sub_id = find_last_value(fields, "record_sub_id");
    let field_value = find_last_value(fields, "field_value");
    match (table_name, field_name, language, translation, record_id, record_sub_id, field_value) {
        (Some(tn), Some(fnm), Some(lg), Some(tr), Some(ri), Some(rsi), Some(fv)) => {
            proof {
                lemma_seen_text_value(fvs, "table_name"@);
                lemma_seen_text_value(fvs, "field_name"@);
                lemma_seen_text_value(fvs, "language"@);
                lemma_seen_text_value(fvs, "translation"@);
            }
            Ok(
                Translation::Gtfs(
                    GtfsTranslation {
                        table_name: tn.unwrap(),
                        field_name: fnm.unwrap(),
                        language: lg.unwrap(),
                        translation: tr.unwrap(),
                        record_id: ri,
                        record_sub_id: rsi,
                        field_value: fv,
                    },
                ),
            )
        },
        _ => Err(Error::Decode(String::from_str("translation record matches neither shape"))),
    }
}

/// Anchors a translation to a specific row of a table.
#[derive(Debug, Eq, PartialEq, Hash, Clone)]
pub struct TranslationByIdKey {
    pub table_name: String,
    pub field_name: String,
    pub language: String,
    pub record_id: String,
    pub record_sub_id: Option<String>,
}

/// The mathematical shadow of a [`TranslationByIdKey`].
#[verifier::ext_equal]
pub struct IdKeyView {
    pub table_name: Seq<char>,
    pub field_name: Seq<char>,
    pub language: Seq<char>,
    pub record_id: Seq<char>,
    pub record_sub_id: Option<Seq<char>>,
}

impl View for TranslationByIdKey {
    type V = IdKeyView;

    open spec fn view(&self) -> IdKeyView {
        IdKeyView {
            table_name: self.table_name@,
            field_name: self.field_name@,
            language: self.language@,
            record_id: self.record_id@,
            record_sub_id: match self.record_sub_id {
                None => None,
                Some(s) => Some(s@),
            },
        }
    }
}

impl TranslationByIdKey {
    /// Whether two keys name the same row and field.
    pub fn key_matches(&self, other: &TranslationByIdKey) -> (r: bool)
        ensures
            r == (self@ == other@),
    {
        let sub_eq = match (&self.record_sub_id, &other.record_sub_id) {
            (None, None) => true,
            (Some(a), Some(b)) => str_equal(a.as_str(), b.as_str()),
            _ => false,
        };
        let r = sub_eq && self.table_name == other.table_name && self.field_name
            == other.field_name && self.language == other.language && self.record_id
            == other.record_id;
        proof {
            if r {
                assert(self@ =~= other@);
            }
        }
        r
    }
}

/// Anchors a translation to the literal untranslated text, for feeds that
/// translate by string match rather than by row.
#[derive(Debug, Eq, PartialEq, Hash, Clone)]
pub struct TranslationByValueKey {
    pub table_name: String,
    pub field_name: String,
    pub language: String,
    pub field_value: String,
}

/// The mathematical shadow of a [`TranslationByValueKey`].
#[verifier::ext_equal]
pub struct ValueKeyView {
    pub table_name: Seq<char>,
    pub field_name: Seq<char>,
    pub language: Seq<char>,
    pub field_value: Seq<char>,
}

impl View for TranslationByValueKey {
    type V = ValueKeyView;

    open spec fn view(&self) -> ValueKeyView {
        ValueKeyView {
            table_name: self.table_name@,
            field_name: self.field_name@,
            language: self.language@,
            field_value: self.field_value@,
        }
    }
}

impl TranslationByValueKey {
    /// Whether two keys name the same untranslated text of a field.
    pub fn key_matches(&self, other: &TranslationByValueKey) -> (r: bool)
        ensures
            r == (self@ == other@),
    {
        let r = self.table_name == other.table_name && self.field_name == other.field_name
            && self.language == other.language && self.field_value == other.field_value;
        proof {
            if r {
                assert(self@ =~= other@);
            }
        }
        r
    }
}

/// One row-anchored entry of the index.
#[derive(Debug)]
struct IdEntry {
    key: TranslationByIdKey,
    text: String,
}

/// The mathematical shadow of an [`IdEntry`].
#[verifier::ext_equal]
pub struct IdEntryView {
    pub key: IdKeyView,
    pub text: Seq<char>,
}

impl View for IdEntry {
    type V = IdEntryView;

    closed spec fn view(&self) -> IdEntryView {
        IdEntryView { key: self.key@, text: self.text@ }
    }
}

/// One text-anchored entry of the index.
#[derive(Debug)]
struct ValueEntry {
    key: TranslationByValueKey,
    text: String,
}

/// The mathematical shadow of a [`ValueEntry`].
#[verifier::ext_equal]
pub struct ValueEntryView {
    pub key: ValueKeyView,
    pub text: Seq<char>,
}

impl View for ValueEntry {
    type V = ValueEntryView;

    closed spec fn view(&self) -> ValueEntryView {
        ValueEntryView { key: self.key@, text: self.text@ }
    }
}

/// The map written by a sequence of row-anchored insertions, later
/// insertions overwriting earlier ones.
pub open spec fn id_map_of(entries: Seq<IdEntryView>) -> Map<IdKeyView, Seq<char>>
    decreases entries.len(),
{
    if entries.len() == 0 {
        Map::empty()
    } else {
        id_map_of(entries.drop_last()).insert(entries.last().key, entries.last().text)
    }
}

/// The map written by a sequence of text-anchored insertions, later
/// insertions overwriting earlier ones.
pub open spec fn value_map_of(entries: Seq<ValueEntryView>) -> Map<ValueKeyView, Seq<char>>
    decreases entries.len(),
{
    if entries.len() == 0 {
        Map::empty()
    } else {
        value_map_of(entries.drop_last()).insert(entries.last().key, entries.last().text)
    }
}

/// The translation index: replacement text under row-anchored and
/// text-anchored keys. This layer defines construction and lookup;
/// populating the index from a stream of resolved generic-shape records is
/// the aggregator's business.
#[derive(Debug)]
pub struct TranslationIndex {
    id_entries: Vec<IdEntry>,
    value_entries: Vec<ValueEntry>,
}

/// The mathematical shadow of a [`TranslationIndex`]: its two maps.
#[verifier::ext_equal]
pub struct TranslationIndexView {
    pub by_id: Map<IdKeyView, Seq<char>>,
    pub by_value: Map<ValueKeyView, Seq<char>>,
}

impl View for TranslationIndex {
    type V = TranslationIndexView;

    closed spec fn view(&self) -> TranslationIndexView {
        TranslationIndexView {
            by_id: id_map_of(Seq::new(self.id_entries@.len(), |i: int| self.id_entries@[i]@)),
            by_value: value_map_of(
                Seq::new(self.value_entries@.len(), |i: int| self.value_entries@[i]@),
            ),
        }
    }
}

/// The replacement a lookup map gives a field: the indexed text under the
/// field's key, or the original text when the key is absent — absence is
/// expected, not an error.
pub open spec fn spec_resolve_text(
    m: Map<IdKeyView, Seq<char>>,
    k: IdKeyView,
    original: Seq<char>,
) -> Seq<char> {
    if m.contains_key(k) {
        m[k]
    } else {
        original
    }
}

/// The row-anchored key of one translatable field of one entity.
pub open spec fn spec_id_key(
    table: Seq<char>,
    field: Seq<char>,
    language: Seq<char>,
    record_id: Seq<char>,
    record_sub_id: Option<Seq<char>>,
) -> IdKeyView {
    IdKeyView {
        table_name: table,
        field_name: field,
        language: language,
        record_id: record_id,
        record_sub_id: record_sub_id,
    }
}

impl TranslationIndex {
    /// An index with no entries.
    pub fn new() -> (r: TranslationIndex)
        ensures
            r@.by_id == Map::<IdKeyView, Seq<char>>::empty(),
            r@.by_value == Map::<ValueKeyView, Seq<char>>::empty(),
    {
        let r = TranslationIndex { id_entries: Vec::new(), value_entries: Vec::new() };
        proof {
            assert(Seq::new(r.id_entries@.len(), |i: int| r.id_entries@[i]@)
                =~= Seq::<IdEntryView>::empty());
            assert(Seq::new(r.value_entries@.len(), |i: int| r.value_entries@[i]@)
                =~= Seq::<ValueEntryView>::empty());
        }
        r
    }

    /// Writes replacement text under a row-anchored key, overwriting any
    /// earlier text under the same key.
    pub fn insert_by_id(&mut self, key: TranslationByIdKey, text: String)
        ensures
            final(self)@.by_id == old(self)@.by_id.insert(key@, text@),
            final(self)@.by_value == old(self)@.by_value,
    {
        let ghost pre = Seq::new(self.id_entries@.len(), |i: int| self.id_entries@[i]@);
        let ghost kv = key@;
        let ghost tv = text@;
        self.id_entries.push(IdEntry { key, text });
        proof {
            let post = Seq::new(self.id_entries@.len(), |i: int| self.id_entries@[i]@);
            assert(post.drop_last() =~= pre);
            assert(post.last() == IdEntryView { key: kv, text: tv });
            assert(Seq::new(self.value_entries@.len(), |i: int| self.value_entries@[i]@)
                =~= Seq::new(old(self).value_entries@.len(), |i: int| old(self).value_entries@[i]@));
        }
    }

    /// Writes replacement text under a text-anchored key, overwriting any
    /// earlier text under the same key.
    pub fn insert_by_value(&mut self, key: TranslationByValueKey, text: String)
        ensures
            final(self)@.by_value == old(self)@.by_value.insert(key@, text@),
            final(self)@.by_id == old(self)@.by_id,
    {
        let ghost pre = Seq::new(self.value_entries@.len(), |i: int| self.value_entries@[i]@);
        let ghost kv = key@;
        let ghost tv = text@;
        self.value_entries.push(ValueEntry { key, text });
        proof {
            let post = Seq::new(self.value_entries@.len(), |i: int| self.value_entries@[i]@);
            assert(post.drop_last() =~= pre);
            assert(post.last() == ValueEntryView { key: kv, text: tv });
            assert(Seq::new(self.id_entries@.len(), |i: int| self.id_entries@[i]@)
                =~= Seq::new(old(self).id_entries@.len(), |i: int| old(self).id_entries@[i]@));
        }
    }

    /// Looks replacement text up under a row-anchored key.
    pub fn lookup_by_id(&self, key: &TranslationByIdKey) -> (r: Option<&String>)
        ensures
            match r {
                Some(t) => self@.by_id.contains_key(key@) && self@.by_id[key@] == t@,
                None => !self@.by_id.contains_key(key@),
            },
    {
        let ghost evs = Seq::new(self.id_entries@.len(), |i: int| self.id_entries@[i]@);
        let n = self.id_entries.len();
        proof {
            assert(evs.take(n as int) =~= evs);
        }
        let mut k: usize = n;
        while k > 0
            invariant
                k <= n,
                n == self.id_entries@.len(),
                evs == Seq::new(self.id_entries@.len(), |i: int| self.id_entries@[i]@),
                id_map_of(evs).contains_key(key@) == id_map_of(evs.take(k as int)).contains_key(
                    key@,
                ),
                id_map_of(evs).contains_key(key@) ==> id_map_of(evs)[key@] == id_map_of(
                    evs.take(k as int),
                )[key@],
            decreases k,
        {
            k = k - 1;
            let e = &self.id_entries[k];
            proof {
                assert(evs.take(k as int + 1).drop_last() =~= evs.take(k as int));
                assert(evs.take(k as int + 1).last() == evs[k as int]);
                assert(evs[k as int] == self.id_entries@[k as int]@);
            }
            if e.key.key_matches(key) {
                return Some(&e.text);
            }
        }
        proof {
            assert(evs.take(0) =~= Seq::<IdEntryView>::empty());
        }
        None
    }

    /// Looks replacement text up under a text-anchored key.
    pub fn lookup_by_value(&self, key: &TranslationByValueKey) -> (r: Option<&String>)
        ensures
            match r {
                Some(t) => self@.by_value.contains_key(key@) && self@.by_value[key@] == t@,
                None => !self@.by_value.contains_key(key@),
            },
    {
        let ghost evs = Seq::new(self.value_entries@.len(), |i: int| self.value_entries@[i]@);
        let n = self.value_entries.len();
        proof {
            assert(evs.take(n as int) =~= evs);
        }
        let mut k: usize = n;
        while k > 0
            invariant
                k <= n,
                n == self.value_entries@.len(),
                evs == Seq::new(self.value_entries@.len(), |i: int| self.value_entries@[i]@),
                value_map_of(evs).contains_key(key@) == value_map_of(
                    evs.take(k as int),
                ).contains_key(key@),
                value_map_of(evs).contains_key(key@) ==> value_map_of(evs)[key@] == value_map_of(
                    evs.take(k as int),
                )[key@],
            decreases k,
        {
            k = k - 1;
            let e = &self.value_entries[k];
            proof {
                assert(evs.take(k as int + 1).drop_last() =~= evs.take(k as int));
                assert(evs.take(k as int + 1).last() == evs[k as int]);
                assert(evs[k as int] == self.value_entries@[k as int]@);
            }
            if e.key.key_matches(key) {
                return Some(&e.text);
            }
        }
        proof {
            assert(evs.take(0) =~= Seq::<ValueEntryView>::empty());
        }
        None
    }

    /// The replacement text of one field of one row: the indexed text when
    /// the row-anchored key is present, the original text otherwise.
    pub fn translate(
        &self,
        table: &str,
        field: &str,
        language: &str,
        record_id: &str,
        record_sub_id: Option<&str>,
        original: &str,
    ) -> (r: String)
        ensures
            r@ == spec_resolve_text(
                self@.by_id,
                spec_id_key(
                    table@,
                    field@,
                    language@,
                    record_id@,
                    crate::codec::opt_str_view(record_sub_id),
                ),
                original@,
            ),
    {
        let key = TranslationByIdKey {
            table_name: table.to_owned(),
            field_name: field.to_owned(),
            language: language.to_owned(),
            record_id: record_id.to_owned(),
            record_sub_id: match record_sub_id {
                None => None,
                Some(s) => Some(s.to_owned()),
            },
        };
        proof {
            assert(key@ =~= spec_id_key(
                table@,
                field@,
                language@,
                record_id@,
                crate::codec::opt_str_view(record_sub_id),
            ));
        }
        match self.lookup_by_id(&key) {
            Some(t) => t.clone(),
            None => original.to_owned(),
        }
    }
}

} // verus!
