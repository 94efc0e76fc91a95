//! What a header map holds, as a mathematical value.
//!
//! A header map is a sequence of fields in the order in which the map walks
//! them. A field is a name together with its values, oldest first, and a value
//! is its bytes together with its "sensitive" mark.

use vstd::prelude::*;

use crate::error::ConversionError;

verus! {

/// The two generations of the HTTP crates.
pub enum Generation {
    /// `http` 0.2.
    Legacy,
    /// `http` 1, as `hyper` 1 exports it.
    Modern,
}

/// A value of a field: its bytes, and whether it is marked sensitive.
pub type FieldValue = (Seq<u8>, bool);

/// A field of a header map: its name and its values.
pub type Field = (Seq<char>, Seq<FieldValue>);

/// The contents of a header map.
pub type Fields = Seq<Field>;

/// One step of a walk: a name where a field begins, no name where it goes on.
pub type Step = (Option<Seq<char>>, Seq<u8>);

/// The longest header name that either generation takes.
pub const MAX_NAME_LEN: usize = 65535;

/// With at most this many names a header map of either generation can always
/// take one more value.
///
/// A map refuses to grow only when its table, at its largest size of 32768 slots,
/// would have to double: when three quarters of the slots are taken, or when names
/// collide heavily and a fifth of them is. The fifth begins with 6554 names. Above
/// that number it depends on how the names hash whether the map can still grow.
pub const ROOMY: usize = 6553;

/// The characters of a lower-case header name. The double quote is the one
/// character on which the generations differ.
pub open spec fn name_char(generation: Generation, c: char) -> bool {
    ||| 'a' <= c <= 'z'
    ||| '0' <= c <= '9'
    ||| c == '!' || c == '#' || c == '$' || c == '%' || c == '&' || c == '\''
    ||| c == '*' || c == '+' || c == '-' || c == '.'
    ||| c == '^' || c == '_' || c == '`' || c == '|' || c == '~'
    ||| generation is Legacy && c == '"'
}

/// The text of a header name as the crate of `generation` stores it.
pub open spec fn name_ok(generation: Generation, name: Seq<char>) -> bool {
    &&& 1 <= name.len() <= MAX_NAME_LEN
    &&& forall|i: int| 0 <= i < name.len() ==> name_char(generation, #[trigger] name[i])
}

/// A character with an upper-case ASCII letter made lower-case.
pub open spec fn folded(c: char) -> char {
    if 'A' <= c <= 'Z' {
        (c as u32 + 32) as char
    } else {
        c
    }
}

/// A text with its upper-case ASCII letters made lower-case.
pub open spec fn folded_text(text: Seq<char>) -> Seq<char> {
    text.map_values(|c: char| folded(c))
}

/// The bytes of a header value, in either generation.
pub open spec fn value_ok(value: Seq<u8>) -> bool {
    forall|i: int|
        0 <= i < value.len() ==> (#[trigger] value[i] == 9 || (value[i] >= 32 && value[i] != 127))
}

/// Whether every part of `field` can stand in a header map of `generation`.
pub open spec fn field_ok(generation: Generation, field: Field) -> bool {
    &&& name_ok(generation, field.0)
    &&& forall|j: int| 0 <= j < field.1.len() ==> value_ok(#[trigger] field.1[j].0)
}

/// Whether every field can stand in a header map of `generation`.
pub open spec fn fields_ok(generation: Generation, fields: Fields) -> bool {
    forall|i: int| 0 <= i < fields.len() ==> field_ok(generation, #[trigger] fields[i])
}

/// `values` with no value marked sensitive.
pub open spec fn unmarked_values(values: Seq<FieldValue>) -> Seq<FieldValue> {
    values.map_values(|value: FieldValue| (value.0, false))
}

/// `field` with no value marked sensitive.
pub open spec fn unmarked_field(field: Field) -> Field {
    (field.0, unmarked_values(field.1))
}

/// `fields` with no value marked sensitive.
pub open spec fn unmarked(fields: Fields) -> Fields {
    fields.map_values(|field: Field| unmarked_field(field))
}

/// The walk over one field: its name comes with the first value only.
pub open spec fn field_walk(field: Field) -> Seq<Step> {
    Seq::new(
        field.1.len(),
        |j: int| (if j == 0 { Some(field.0) } else { None::<Seq<char>> }, field.1[j].0),
    )
}

/// The walk over all fields.
pub open spec fn walk(fields: Fields) -> Seq<Step>
    decreases fields.len(),
{
    if fields.len() == 0 {
        Seq::empty()
    } else {
        walk(fields.drop_last()) + field_walk(fields.last())
    }
}

/// What holds of the contents of every header map: a name occurs once and is in
/// lower case, and every field has a value.
pub open spec fn map_shape(fields: Fields) -> bool {
    &&& forall|i: int, j: int|
        0 <= i < j < fields.len() ==> (#[trigger] fields[i]).0 != (#[trigger] fields[j]).0
    &&& forall|i: int|
        0 <= i < fields.len() ==> folded_text((#[trigger] fields[i]).0) == fields[i].0
    &&& forall|i: int| 0 <= i < fields.len() ==> (#[trigger] fields[i]).1.len() > 0
}

/// `after` is `before` with `value` added under `name`: behind the values that
/// the name has, or as a new field at the end.
pub open spec fn appended_value(
    before: Fields,
    after: Fields,
    name: Seq<char>,
    value: FieldValue,
) -> bool {
    ||| exists|i: int|
        #![trigger before[i]]
        {
            &&& 0 <= i < before.len()
            &&& before[i].0 == name
            &&& after == before.update(i, (name, before[i].1.push(value)))
        }
    ||| {
        &&& !has_name(before, name)
        &&& after == before.push((name, seq![value]))
    }
}

/// `after` is `before` with the bytes `value` added under `name`, not marked
/// sensitive.
pub open spec fn appended(before: Fields, after: Fields, name: Seq<char>, value: Seq<u8>) -> bool {
    appended_value(before, after, name, (value, false))
}

/// Whether some field is called `name`.
pub open spec fn has_name(fields: Fields, name: Seq<char>) -> bool {
    exists|i: int| 0 <= i < fields.len() && (#[trigger] fields[i]).0 == name
}

/// The number of values in the first `n` fields.
pub open spec fn values_before(fields: Fields, n: int) -> int
    decreases n,
{
    if n <= 0 {
        0
    } else {
        values_before(fields, n - 1) + fields[n - 1].1.len()
    }
}

pub(crate) proof fn lemma_values_before_prefix(fields: Fields, m: int, n: int)
    requires
        0 <= n <= m <= fields.len(),
    ensures
        values_before(fields.take(m), n) == values_before(fields, n),
    decreases n,
{
    if n > 0 {
        lemma_values_before_prefix(fields, m, n - 1);
    }
}

pub(crate) proof fn lemma_values_before_monotone(fields: Fields, m: int, n: int)
    requires
        m <= n,
    ensures
        values_before(fields, m) <= values_before(fields, n),
    decreases n - m,
{
    if m < n {
        lemma_values_before_monotone(fields, m, n - 1);
    }
}

/// Where the `j`-th value of the `i`-th field stands in the walk.
pub(crate) proof fn lemma_walk_position(fields: Fields, i: int, j: int)
    requires
        0 <= i < fields.len(),
        0 <= j < fields[i].1.len(),
    ensures
        walk(fields).len() == values_before(fields, fields.len() as int),
        values_before(fields, i) + j < walk(fields).len(),
        walk(fields)[values_before(fields, i) + j] == field_walk(fields[i])[j],
    decreases fields.len(),
{
    lemma_walk_len(fields);
    lemma_walk_len(fields.drop_last());
    lemma_values_before_monotone(fields, 0, i);
    lemma_values_before_monotone(fields, i + 1, fields.len() as int);
    let front = fields.drop_last();
    assert(front == fields.take(fields.len() - 1));
    if i < front.len() {
        lemma_walk_position(front, i, j);
        lemma_values_before_prefix(fields, fields.len() - 1, i);
        assert(front[i] == fields[i]);
    } else {
        lemma_values_before_prefix(fields, fields.len() - 1, fields.len() - 1);
    }
}

pub(crate) proof fn lemma_walk_len(fields: Fields)
    ensures
        walk(fields).len() == values_before(fields, fields.len() as int),
    decreases fields.len(),
{
    if fields.len() > 0 {
        lemma_walk_len(fields.drop_last());
        assert(fields.drop_last() == fields.take(fields.len() - 1));
        lemma_values_before_prefix(fields, fields.len() - 1, fields.len() - 1);
    }
}

/// The first field that cannot stand in a header map of `generation` is the one
/// at `i`.
pub open spec fn first_bad(generation: Generation, fields: Fields, i: int) -> bool {
    &&& 0 <= i < fields.len()
    &&& !field_ok(generation, fields[i])
    &&& forall|k: int| 0 <= k < i ==> field_ok(generation, #[trigger] fields[k])
}

/// What becomes of a header map with the contents `before` when it is rebuilt
/// in the crate of `target`: the same fields in the same order, with no value
/// marked sensitive; or the fault of the first field that cannot stand there,
/// the name being looked at before the values. The map may refuse to grow only
/// where there are more than `ROOMY` names, and then the first `ROOMY` fields can
/// all stand there.
pub open spec fn fields_converted(
    target: Generation,
    before: Fields,
    outcome: Result<Fields, ConversionError>,
) -> bool {
    match outcome {
        Ok(after) => fields_ok(target, before) && after == unmarked(before),
        Err(ConversionError::HeaderName) => exists|i: int| #[trigger]
            first_bad(target, before, i) && !name_ok(target, before[i].0),
        Err(ConversionError::HeaderValue) => exists|i: int| #[trigger]
            first_bad(target, before, i) && name_ok(target, before[i].0),
        Err(ConversionError::TooManyHeaders) => {
            &&& before.len() > ROOMY
            &&& forall|k: int| 0 <= k < ROOMY ==> field_ok(target, #[trigger] before[k])
        },
        Err(_) => false,
    }
}

/// Every field that can stand in a header map of `http` 1 can stand in one of
/// `http` 0.2. The other way it can where its name has no double quote.
pub proof fn modern_fields_are_legacy_fields(field: Field)
    ensures
        field_ok(Generation::Modern, field) <==> field_ok(Generation::Legacy, field)
            && !field.0.contains('"'),
{
    assert forall|i: int| 0 <= i < field.0.len() implies (name_char(
        Generation::Modern,
        #[trigger] field.0[i],
    ) <==> name_char(Generation::Legacy, field.0[i]) && field.0[i] != '"') by {}
    if field_ok(Generation::Legacy, field) && !field.0.contains('"') {
        assert forall|i: int| 0 <= i < field.0.len() implies name_char(
            Generation::Modern,
            #[trigger] field.0[i],
        ) by {
            assert(name_char(Generation::Legacy, field.0[i]));
        }
    }
    if field_ok(Generation::Modern, field) {
        assert forall|i: int| 0 <= i < field.0.len() implies name_char(
            Generation::Legacy,
            #[trigger] field.0[i],
        ) by {
            assert(name_char(Generation::Modern, field.0[i]));
        }
    }
}

/// With at most `ROOMY` names, rebuilding a header map succeeds exactly where all
/// its fields can stand in the target.
pub proof fn roomy_maps_convert(
    target: Generation,
    before: Fields,
    outcome: Result<Fields, ConversionError>,
)
    requires
        fields_converted(target, before, outcome),
        before.len() <= ROOMY,
    ensures
        outcome is Ok <==> fields_ok(target, before),
{
}

/// A field among the first `ROOMY` that is the first that cannot stand in the target
/// is reported as what it is, however many names follow.
pub proof fn early_faults_are_reported(
    target: Generation,
    before: Fields,
    outcome: Result<Fields, ConversionError>,
    i: int,
)
    requires
        fields_converted(target, before, outcome),
        first_bad(target, before, i),
        i < ROOMY,
    ensures
        outcome == Err::<Fields, ConversionError>(
            if name_ok(target, before[i].0) {
                ConversionError::HeaderValue
            } else {
                ConversionError::HeaderName
            },
        ),
{
    assert forall|k: int| #[trigger] first_bad(target, before, k) implies k == i by {
        if k < i {
            assert(field_ok(target, before[k]));
        } else if i < k {
            assert(field_ok(target, before[i]));
        }
    }
}

/// With at most `ROOMY` names, the contents of a header map determine what
/// becomes of it.
pub proof fn roomy_maps_have_one_outcome(
    target: Generation,
    before: Fields,
    first: Result<Fields, ConversionError>,
    second: Result<Fields, ConversionError>,
)
    requires
        fields_converted(target, before, first),
        fields_converted(target, before, second),
        before.len() <= ROOMY,
    ensures
        first == second,
{
    if first is Err && second is Err {
        let i = choose|i: int| first_bad(target, before, i);
        early_faults_are_reported(target, before, first, i);
        early_faults_are_reported(target, before, second, i);
    }
}

/// A header map that was rebuilt on the other side and then rebuilt on its own
/// side again holds what it held, in the same order, with no value marked
/// sensitive.
pub proof fn fields_round_trip(
    there: Generation,
    back: Generation,
    start: Fields,
    middle: Fields,
    end: Fields,
)
    requires
        fields_converted(there, start, Ok(middle)),
        fields_converted(back, middle, Ok(end)),
    ensures
        end == unmarked(start),
{
    assert forall|i: int| 0 <= i < start.len() implies #[trigger] end[i] == unmarked(start)[i] by {
        assert(unmarked_values(unmarked_values(start[i].1)) =~= unmarked_values(start[i].1));
    }
    assert(end =~= unmarked(start));
}

/// A header map whose fields can all stand in `http` 1 comes back as it was, in the
/// same order and with no value marked sensitive, whichever side it starts on: the
/// way there and the way back each give this or find a map that refuses to grow,
/// and no map refuses where there are at most `ROOMY` names.
pub proof fn header_maps_come_back(
    there: Generation,
    back: Generation,
    start: Fields,
    middle: Result<Fields, ConversionError>,
    end: Result<Fields, ConversionError>,
)
    requires
        fields_ok(Generation::Modern, start),
        fields_converted(there, start, middle),
        middle matches Ok(middle) ==> fields_converted(back, middle, end),
    ensures
        middle == Ok::<Fields, ConversionError>(unmarked(start)) || middle == Err::<
            Fields,
            ConversionError,
        >(ConversionError::TooManyHeaders),
        middle is Ok ==> end == Ok::<Fields, ConversionError>(unmarked(start)) || end == Err::<
            Fields,
            ConversionError,
        >(ConversionError::TooManyHeaders),
        start.len() <= ROOMY ==> middle is Ok && end is Ok,
{
    lemma_modern_fields_ok(there, start);
    if middle is Ok {
        lemma_modern_fields_ok_unmarked(start);
        lemma_modern_fields_ok(back, unmarked(start));
        if let Ok(fields) = end {
            fields_round_trip(there, back, start, unmarked(start), fields);
        }
    }
}

proof fn lemma_modern_fields_ok(generation: Generation, fields: Fields)
    requires
        fields_ok(Generation::Modern, fields),
    ensures
        fields_ok(generation, fields),
{
    assert forall|i: int| 0 <= i < fields.len() implies field_ok(
        generation,
        #[trigger] fields[i],
    ) by {
        modern_fields_are_legacy_fields(fields[i]);
    }
}

proof fn lemma_modern_fields_ok_unmarked(fields: Fields)
    requires
        fields_ok(Generation::Modern, fields),
    ensures
        fields_ok(Generation::Modern, unmarked(fields)),
{
    assert forall|i: int| 0 <= i < fields.len() implies field_ok(
        Generation::Modern,
        #[trigger] unmarked(fields)[i],
    ) by {
        assert(field_ok(Generation::Modern, fields[i]));
        assert forall|j: int| 0 <= j < fields[i].1.len() implies value_ok(
            #[trigger] unmarked(fields)[i].1[j].0,
        ) by {
            assert(value_ok(fields[i].1[j].0));
        }
    }
}

/// Adding a value and then dropping the sensitive marks is dropping the marks and
/// then adding the bytes of the value, whether the name was there or not.
pub proof fn unmarking_commutes_with_append(
    before: Fields,
    after: Fields,
    name: Seq<char>,
    value: FieldValue,
)
    requires
        appended_value(before, after, name, value),
    ensures
        appended(unmarked(before), unmarked(after), name, value.0),
{
    let plain = unmarked(before);
    assert forall|i: int| 0 <= i < before.len() implies (#[trigger] plain[i]).0 == before[i].0 by {}
    if has_name(before, name) {
        let i = choose|i: int|
            #![trigger before[i]]
            {
                &&& 0 <= i < before.len()
                &&& before[i].0 == name
                &&& after == before.update(i, (name, before[i].1.push(value)))
            };
        let grown = (name, plain[i].1.push((value.0, false)));
        assert(unmarked_values(before[i].1.push(value)) =~= grown.1);
        assert(unmarked(after) =~= plain.update(i, grown));
    } else {
        assert(unmarked_values(seq![value]) =~= seq![(value.0, false)]);
        assert(unmarked(after) =~= plain.push((name, seq![(value.0, false)])));
    }
}

/// Rebuilding a header map commutes with adding a value to it, whether the name
/// was there or not. With the value added, the map can be rebuilt where it could
/// be before and the target takes the name and the value; only a map that refuses
/// to grow can then stand in the way, and none does with at most `ROOMY` names.
pub proof fn conversion_commutes_with_append(
    target: Generation,
    before: Fields,
    after: Fields,
    name: Seq<char>,
    value: FieldValue,
    before_converted: Fields,
    outcome: Result<Fields, ConversionError>,
)
    requires
        appended_value(before, after, name, value),
        name_ok(target, name),
        value_ok(value.0),
        fields_converted(target, before, Ok(before_converted)),
        fields_converted(target, after, outcome),
    ensures
        match outcome {
            Ok(after_converted) => appended(before_converted, after_converted, name, value.0),
            Err(error) => error == ConversionError::TooManyHeaders && after.len() > ROOMY,
        },
{
    unmarking_commutes_with_append(before, after, name, value);
    assert forall|i: int| 0 <= i < after.len() implies field_ok(target, #[trigger] after[i]) by {
        if i < before.len() {
            assert(field_ok(target, before[i]));
            assert forall|j: int| 0 <= j < after[i].1.len() implies value_ok(
                #[trigger] after[i].1[j].0,
            ) by {
                if j < before[i].1.len() {
                    assert(value_ok(before[i].1[j].0));
                }
            }
        }
    }
}

/// A walk over `fields` that has taken `k` steps has come through `j` values of
/// the field at `i` and through all fields before it.
pub(crate) open spec fn walked(fields: Fields, k: int, i: int, j: int) -> bool {
    ||| k == 0 && i == 0 && j == 0
    ||| {
        &&& 0 <= i < fields.len()
        &&& 1 <= j <= fields[i].1.len()
        &&& k == values_before(fields, i) + j
    }
}

/// The fields, and the values of the last one, that such a walk has come through.
pub(crate) open spec fn rebuilt(fields: Fields, i: int, j: int) -> Fields {
    if j == 0 {
        Seq::empty()
    } else {
        unmarked(fields.take(i)).push((fields[i].0, unmarked_values(fields[i].1.take(j))))
    }
}

/// Such a walk has met nothing that cannot stand in a header map of `generation`.
pub(crate) open spec fn checked(generation: Generation, fields: Fields, i: int, j: int) -> bool {
    &&& forall|k: int| 0 <= k < i ==> field_ok(generation, #[trigger] fields[k])
    &&& j > 0 ==> name_ok(generation, fields[i].0)
    &&& forall|v: int| 0 <= v < j ==> value_ok(#[trigger] fields[i].1[v].0)
}

/// Where the next step of a walk leads.
pub(crate) open spec fn next_place(fields: Fields, i: int, j: int) -> (int, int) {
    if j == 0 {
        (0, 1)
    } else if j < fields[i].1.len() {
        (i, j + 1)
    } else {
        (i + 1, 1)
    }
}

pub(crate) proof fn lemma_next_step(generation: Generation, fields: Fields, k: int, i: int, j: int)
    requires
        map_shape(fields),
        walked(fields, k, i, j),
        checked(generation, fields, i, j),
        k < walk(fields).len(),
    ensures
        ({
            let (ni, nj) = next_place(fields, i, j);
            &&& walked(fields, k + 1, ni, nj)
            &&& nj > 1 ==> ni == i
            &&& walk(fields)[k] == (
                if nj == 1 { Some(fields[ni].0) } else { None },
                fields[ni].1[nj - 1].0,
            )
            &&& forall|m: int| 0 <= m < ni ==> field_ok(generation, #[trigger] fields[m])
            &&& name_ok(generation, fields[ni].0) && value_ok(fields[ni].1[nj - 1].0)
                ==> checked(generation, fields, ni, nj)
        }),
{
    lemma_walk_len(fields);
    let (ni, nj) = next_place(fields, i, j);
    if j == 0 {
        if fields.len() == 0 {
            assert(walk(fields).len() == 0);
        }
        lemma_walk_position(fields, 0, 0);
    } else if j < fields[i].1.len() {
        lemma_walk_position(fields, i, j);
    } else {
        assert(field_ok(generation, fields[i]));
        assert(values_before(fields, i + 1) == k);
        lemma_walk_position(fields, i + 1, 0);
    }
}

pub(crate) proof fn lemma_next_append(fields: Fields, i: int, j: int, after: Fields)
    requires
        map_shape(fields),
        0 <= j,
        j == 0 ==> i == 0,
        j > 0 ==> 0 <= i < fields.len() && j <= fields[i].1.len(),
        ({
            let (ni, nj) = next_place(fields, i, j);
            &&& 0 <= ni < fields.len()
            &&& nj <= fields[ni].1.len()
            &&& appended(
                rebuilt(fields, i, j),
                after,
                fields[ni].0,
                fields[ni].1[nj - 1].0,
            )
        }),
    ensures
        ({
            let (ni, nj) = next_place(fields, i, j);
            after == rebuilt(fields, ni, nj)
        }),
{
    let (ni, nj) = next_place(fields, i, j);
    let before = rebuilt(fields, i, j);
    let name = fields[ni].0;
    let value = fields[ni].1[nj - 1].0;
    assert forall|m: int| 0 <= m < before.len() implies (#[trigger] before[m]).0 == fields[m].0 by {}
    if nj > 1 {
        assert(before[i].0 == name);
        assert(has_name(before, name));
        let m = choose|m: int|
            #![trigger before[m]]
            {
                &&& 0 <= m < before.len()
                &&& before[m].0 == name
                &&& after == before.update(m, (name, before[m].1.push((value, false))))
            };
        assert(m == i);
        assert(unmarked_values(fields[i].1.take(j)).push((value, false)) =~= unmarked_values(
            fields[i].1.take(nj),
        ));
        assert(after =~= rebuilt(fields, ni, nj));
    } else {
        assert forall|m: int| 0 <= m < before.len() implies (#[trigger] before[m]).0 != name by {
            assert(fields[m].0 != fields[ni].0);
        }
        assert(!has_name(before, name));
        assert(seq![(value, false)] =~= unmarked_values(fields[ni].1.take(1)));
        if j > 0 {
            assert(fields[i].1.take(j) =~= fields[i].1);
            assert(before =~= unmarked(fields.take(ni)));
        } else {
            assert(before =~= unmarked(fields.take(0)));
        }
        assert(after =~= rebuilt(fields, ni, nj));
    }
}

/// A walk that has taken all its steps has come through all fields.
pub(crate) proof fn lemma_walk_end(generation: Generation, fields: Fields, k: int, i: int, j: int)
    requires
        map_shape(fields),
        walked(fields, k, i, j),
        checked(generation, fields, i, j),
        k == walk(fields).len(),
    ensures
        fields_ok(generation, fields),
        rebuilt(fields, i, j) == unmarked(fields),
{
    lemma_walk_len(fields);
    if j == 0 {
        if fields.len() > 0 {
            lemma_walk_position(fields, 0, 0);
        }
        assert(rebuilt(fields, i, j) =~= unmarked(fields));
    } else {
        if i + 1 < fields.len() {
            lemma_walk_position(fields, i + 1, 0);
            assert(values_before(fields, i + 1) == values_before(fields, i) + fields[i].1.len());
        }
        if j < fields[i].1.len() {
            lemma_walk_position(fields, i, j);
        }
        assert(fields[i].1.take(j) =~= fields[i].1);
        assert(field_ok(generation, fields[i]));
        assert(rebuilt(fields, i, j) =~= unmarked(fields));
    }
}

} // verus!
