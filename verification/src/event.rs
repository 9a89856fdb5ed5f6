//! The event data model, the rendering of a call-context chain, and the
//! formatting of one event into a single message line.

use vstd::prelude::*;

use crate::level::Severity;
use crate::text::bool_str;
use crate::text::debug_quoted;
use crate::text::debug_quoted_of;
use crate::text::int_str;
use crate::text::push_bool;
use crate::text::push_dec;
use crate::text::push_int;

verus! {

/// One structured field value of an event. Values the framework hands over
/// as raw text that was already rendered elsewhere arrive as `Rendered`.
pub enum FieldValue {
    Str(String),
    I64(i64),
    U64(u64),
    Bool(bool),
    Rendered(String),
}

/// The mathematical value of a `FieldValue`.
pub enum ValueRepr {
    Str(Seq<char>),
    Int(int),
    Bool(bool),
    Rendered(Seq<char>),
}

impl View for FieldValue {
    type V = ValueRepr;

    open spec fn view(&self) -> ValueRepr {
        match self {
            FieldValue::Str(s) => ValueRepr::Str(s@),
            FieldValue::I64(n) => ValueRepr::Int(*n as int),
            FieldValue::U64(n) => ValueRepr::Int(*n as int),
            FieldValue::Bool(b) => ValueRepr::Bool(*b),
            FieldValue::Rendered(s) => ValueRepr::Rendered(s@),
        }
    }
}

/// One key/value pair of an event, in emission order.
pub struct Field {
    pub key: String,
    pub value: FieldValue,
}

/// The mathematical value of a `Field`.
pub struct FieldRepr {
    pub key: Seq<char>,
    pub value: ValueRepr,
}

impl View for Field {
    type V = FieldRepr;

    open spec fn view(&self) -> FieldRepr {
        FieldRepr { key: self.key@, value: self.value@ }
    }
}

/// One logging occurrence as the source framework describes it: the
/// emitting subsystem, a severity, and the structured fields in emission
/// order. The event's own message, when the framework attaches one, is
/// carried as a field among the others.
pub struct LogEvent {
    pub target: String,
    pub level: Severity,
    pub fields: Vec<Field>,
}

/// The mathematical value of a `LogEvent`.
pub struct EventRepr {
    pub target: Seq<char>,
    pub level: Severity,
    pub fields: Seq<FieldRepr>,
}

impl View for LogEvent {
    type V = EventRepr;

    open spec fn view(&self) -> EventRepr {
        EventRepr {
            target: self.target@,
            level: self.level,
            fields: field_views(self.fields@),
        }
    }
}

/// The views of a sequence of fields.
pub open spec fn field_views(fields: Seq<Field>) -> Seq<FieldRepr> {
    fields.map_values(|f: Field| f@)
}

/// The views of a sequence of context-frame names.
pub open spec fn frame_views(chain: Seq<String>) -> Seq<Seq<char>> {
    chain.map_values(|s: String| s@)
}

/// The text one field value renders to.
pub open spec fn value_text(v: ValueRepr) -> Seq<char> {
    match v {
        ValueRepr::Str(s) => debug_quoted_of(s),
        ValueRepr::Int(n) => int_str(n),
        ValueRepr::Bool(b) => bool_str(b),
        ValueRepr::Rendered(s) => s,
    }
}

/// The values of a sequence of fields, keys dropped.
pub open spec fn values_of(fields: Seq<FieldRepr>) -> Seq<ValueRepr> {
    fields.map_values(|f: FieldRepr| f.value)
}

/// The text a sequence of field values renders to: each value in order,
/// each followed by one space; keys never appear.
pub open spec fn fields_text(vs: Seq<ValueRepr>) -> Seq<char>
    decreases vs.len(),
{
    if vs.len() == 0 {
        Seq::empty()
    } else {
        fields_text(vs.drop_last()) + value_text(vs.last()) + seq![' ']
    }
}

/// The text of a call-context chain: the frame names in the order the
/// chain enumerates them (innermost first), joined with `"::"`; empty for
/// the empty chain.
pub open spec fn context_text(frames: Seq<Seq<char>>) -> Seq<char>
    decreases frames.len(),
{
    if frames.len() == 0 {
        Seq::empty()
    } else if frames.len() == 1 {
        frames[0]
    } else {
        context_text(frames.drop_last()) + seq![':', ':'] + frames.last()
    }
}

/// The leading part a context prefix contributes to a message: nothing when
/// there is no context, otherwise the prefix followed by `": "`.
pub open spec fn prefix_text(prefix: Seq<char>) -> Seq<char> {
    if prefix.len() == 0 {
        Seq::empty()
    } else {
        prefix + seq![':', ' ']
    }
}

/// The whole message line of one event: the context prefix part, the
/// target followed by `": "`, then the rendered field values.
pub open spec fn message_text(prefix: Seq<char>, target: Seq<char>, fields: Seq<FieldRepr>) -> Seq<
    char,
> {
    prefix_text(prefix) + target + seq![':', ' '] + fields_text(values_of(fields))
}

/// Render a call-context chain to one string: the frame names joined with
/// `"::"` in the order given, the empty string for the empty chain.
pub fn render_context(chain: &Vec<String>) -> (r: String)
    ensures
        r@ == context_text(frame_views(chain@)),
{
    let mut out = String::new();
    let mut i: usize = 0;
    while i < chain.len()
        invariant
            i <= chain.len(),
            out@ == context_text(frame_views(chain@).take(i as int)),
        decreases chain.len() - i,
    {
        if i > 0 {
            out.append("::");
        }
        out.append(chain[i].as_str());
        proof {
            reveal_strlit("::");
            assert("::"@ =~= seq![':', ':']);
            let frames = frame_views(chain@);
            assert(frames[i as int] == chain@[i as int]@);
            assert(frames.take(i as int + 1).drop_last() =~= frames.take(i as int));
            assert(frames.take(i as int + 1).last() == frames[i as int]);
            assert(out@ =~= context_text(frames.take(i as int + 1)));
        }
        i += 1;
    }
    proof {
        assert(frame_views(chain@).take(chain@.len() as int) =~= frame_views(chain@));
    }
    out
}

/// Append the rendered text of one field value to `out`.
fn push_value(out: &mut String, v: &FieldValue)
    ensures
        final(out)@ == old(out)@ + value_text(v@),
{
    match v {
        FieldValue::Str(s) => {
            let q = debug_quoted(s.as_str());
            out.append(q.as_str());
        },
        FieldValue::I64(n) => push_int(out, *n),
        FieldValue::U64(n) => push_dec(out, *n),
        FieldValue::Bool(b) => push_bool(out, *b),
        FieldValue::Rendered(s) => out.append(s.as_str()),
    }
}

/// Format one event into a single message line: the context prefix (with
/// `": "`) when one is given, the target with `": "`, then every field
/// value in emission order, each followed by one space; field keys are
/// never rendered.
pub fn format_event(prefix: &str, target: &str, fields: &Vec<Field>) -> (r: String)
    ensures
        r@ == message_text(prefix@, target@, field_views(fields@)),
{
    let mut out = String::new();
    if !prefix.is_empty() {
        out.append(prefix);
        out.append(": ");
    }
    out.append(target);
    out.append(": ");
    proof {
        reveal_strlit(": ");
        assert(": "@ =~= seq![':', ' ']);
        assert(values_of(field_views(fields@)).take(0) =~= Seq::<ValueRepr>::empty());
        assert(out@ =~= prefix_text(prefix@) + target@ + seq![':', ' '] + fields_text(
            values_of(field_views(fields@)).take(0),
        ));
    }
    let mut i: usize = 0;
    while i < fields.len()
        invariant
            i <= fields.len(),
            out@ == prefix_text(prefix@) + target@ + seq![':', ' '] + fields_text(
                values_of(field_views(fields@)).take(i as int),
            ),
        decreases fields.len() - i,
    {
        let f = &fields[i];
        push_value(&mut out, &f.value);
        out.append(" ");
        proof {
            reveal_strlit(" ");
            assert(" "@ =~= seq![' ']);
            let vs = values_of(field_views(fields@));
            assert(field_views(fields@)[i as int] == fields@[i as int]@);
            assert(vs[i as int] == fields@[i as int]@.value);
            assert(vs.take(i as int + 1).drop_last() =~= vs.take(i as int));
            assert(vs.take(i as int + 1).last() == vs[i as int]);
            assert(out@ =~= prefix_text(prefix@) + target@ + seq![':', ' '] + fields_text(
                vs.take(i as int + 1),
            ));
        }
        i += 1;
    }
    proof {
        let vs = values_of(field_views(fields@));
        assert(vs.take(fields@.len() as int) =~= vs);
    }
    out
}

/// Field keys are not rendered: two field sequences that carry the same
/// values in the same order format to the same message, whatever their
/// keys say.
pub proof fn lemma_keys_not_rendered(
    prefix: Seq<char>,
    target: Seq<char>,
    a: Seq<FieldRepr>,
    b: Seq<FieldRepr>,
)
    requires
        a.len() == b.len(),
        forall|i: int| 0 <= i < a.len() ==> a[i].value == b[i].value,
    ensures
        message_text(prefix, target, a) == message_text(prefix, target, b),
{
    assert(values_of(a) =~= values_of(b));
}

/// A message formatted with a non-empty context prefix begins with that
/// prefix followed by `": "`.
pub proof fn lemma_prefix_heads_message(prefix: Seq<char>, target: Seq<char>, fields: Seq<
    FieldRepr,
>)
    requires
        prefix.len() > 0,
    ensures
        message_text(prefix, target, fields).len() >= prefix.len() + 2,
        message_text(prefix, target, fields).take(prefix.len() as int + 2) == prefix + seq![
            ':',
            ' ',
        ],
{
    assert(message_text(prefix, target, fields).take(prefix.len() as int + 2) =~= prefix + seq![
        ':',
        ' ',
    ]);
}

} // verus!
