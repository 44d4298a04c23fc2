//! Template and options-template definitions: the schemas that data records
//! are decoded by.

use crate::cursor::ByteCursor;
use crate::wire::u16_at;
use crate::{short, Error, ErrorView};
use vstd::prelude::*;

verus! {

/// One field of a schema: what it means and how many bytes it takes.
#[derive(Clone, Copy, Debug, PartialEq, Eq)]
pub struct FieldDefinition {
    /// The type code that says what the field means.
    pub typ: u16,
    /// The field's length in bytes; 65535 announces a length prefix in each record.
    pub length: u16,
}

/// One field of a schema, by the name the protocol's texts give it.
pub type FieldSpec = FieldDefinition;

/// The length that marks a field as variable-length.
pub const VARIABLE_LENGTH: u16 = 65535;

/// The `n` field specifications that start at byte `at` of `s`, four bytes each.
pub open spec fn fields_at(s: Seq<u8>, at: int, n: int) -> Seq<FieldDefinition> {
    Seq::new(
        n as nat,
        |i: int|
            FieldDefinition {
                typ: u16_at(s, at + 4 * i) as u16,
                length: u16_at(s, at + 4 * i + 2) as u16,
            },
    )
}

/// Reads `n` field specifications, or nothing at all where fewer than `4 * n`
/// bytes are left.
pub fn read_fields(c: &mut ByteCursor, n: usize) -> (r: Result<Vec<FieldDefinition>, Error>)
    requires
        4 * n <= usize::MAX,
    ensures
        final(c).bytes() == old(c).bytes(),
        match r {
            Ok(fields) => old(c).left() >= 4 * n && fields@ == fields_at(
                old(c).bytes(),
                old(c).offset(),
                n as int,
            ) && final(c).offset() == old(c).offset() + 4 * n,
            Err(e) => old(c).left() < 4 * n && e@ == short(4 * n, old(c).left())
                && final(c).offset() == old(c).offset(),
        },
{
    let left = c.remaining();
    if left < 4 * n {
        return Err(Error::NotEnoughData { expected: 4 * n, actual: left });
    }
    let ghost start = c.offset();
    let ghost bytes = c.bytes();
    let mut fields: Vec<FieldDefinition> = Vec::with_capacity(n);
    let mut i: usize = 0;
    while i < n
        invariant
            i <= n,
            4 * n <= usize::MAX,
            c.bytes() == bytes,
            c.offset() == start + 4 * i,
            start + 4 * n <= bytes.len(),
            fields@ == fields_at(bytes, start, i as int),
        decreases n - i,
    {
        let typ = match c.read_u16() {
            Ok(v) => v,
            Err(e) => { return Err(e); },
        };
        let length = match c.read_u16() {
            Ok(v) => v,
            Err(e) => { return Err(e); },
        };
        fields.push(FieldDefinition { typ, length });
        i = i + 1;
        assert(fields@ =~= fields_at(bytes, start, i as int));
    }
    Ok(fields)
}

/// An ordered schema for data records, as a template flow set announces it.
#[derive(Debug, PartialEq)]
pub struct TemplateRecord {
    /// The id that data flow sets cite.
    pub id: u16,
    /// The fields of one record, in wire order.
    pub fields: Vec<FieldDefinition>,
}

/// A template definition, by the name the protocol's texts give it.
pub type TemplateDefinition = TemplateRecord;

/// The mathematical value of a [`TemplateRecord`].
pub ghost struct TemplateView {
    pub id: u16,
    pub fields: Seq<FieldDefinition>,
}

impl View for TemplateRecord {
    type V = TemplateView;

    open spec fn view(&self) -> TemplateView {
        TemplateView { id: self.id, fields: self.fields@ }
    }
}

/// The template that `s` starts with: its id, its field count, then that many
/// field specifications. A body shorter than the four bytes of id and count, or
/// than the fields it announces, is short by exactly that minimum.
pub open spec fn parse_template(s: Seq<u8>) -> Result<TemplateView, ErrorView> {
    if s.len() < 4 {
        Err(short(4, s.len() as int))
    } else if s.len() < 4 + 4 * u16_at(s, 2) {
        Err(short(4 + 4 * u16_at(s, 2), s.len() as int))
    } else {
        Ok(TemplateView { id: u16_at(s, 0) as u16, fields: fields_at(s, 4, u16_at(s, 2)) })
    }
}

impl TemplateView {
    /// The number of bytes this definition takes on the wire.
    pub open spec fn wire_len(self) -> int {
        4 + 4 * (self.fields.len() as int)
    }
}

impl TemplateRecord {
    /// The number of bytes that id and field count take.
    pub const MIN_LEN: usize = 4;

    /// Parses the template definition that `body` starts with. `body` begins
    /// after the flow-set header; bytes after the definition are not looked at.
    pub fn parse(body: &[u8]) -> (r: Result<Self, Error>)
        ensures
            match r {
                Ok(t) => parse_template(body@) == Ok::<TemplateView, ErrorView>(t@),
                Err(e) => parse_template(body@) == Err::<TemplateView, ErrorView>(e@),
            },
    {
        let mut c = ByteCursor::new(body);
        if body.len() < Self::MIN_LEN {
            return Err(Error::NotEnoughData { expected: Self::MIN_LEN, actual: body.len() });
        }
        let id = match c.read_u16() {
            Ok(v) => v,
            Err(e) => { return Err(e); },
        };
        let count = match c.read_u16() {
            Ok(v) => v,
            Err(e) => { return Err(e); },
        };
        let n = count as usize;
        match read_fields(&mut c, n) {
            Ok(fields) => Ok(TemplateRecord { id, fields }),
            Err(_) => Err(
                Error::NotEnoughData { expected: Self::MIN_LEN + 4 * n, actual: body.len() },
            ),
        }
    }

    /// The number of fields in one record.
    pub fn field_count(&self) -> (n: usize)
        ensures
            n == self@.fields.len(),
    {
        self.fields.len()
    }
}

/// A schema for option records: the fields that say what is described (the
/// scope), then the fields that describe it.
#[derive(Debug, PartialEq)]
pub struct OptionsTemplateDefinition {
    /// The id that data flow sets cite.
    pub id: u16,
    /// The scope fields, in wire order.
    pub scope_fields: Vec<FieldDefinition>,
    /// The option fields, in wire order.
    pub option_fields: Vec<FieldDefinition>,
}

/// The mathematical value of an [`OptionsTemplateDefinition`].
pub ghost struct OptionsTemplateView {
    pub id: u16,
    pub scope_fields: Seq<FieldDefinition>,
    pub option_fields: Seq<FieldDefinition>,
}

impl View for OptionsTemplateDefinition {
    type V = OptionsTemplateView;

    open spec fn view(&self) -> OptionsTemplateView {
        OptionsTemplateView {
            id: self.id,
            scope_fields: self.scope_fields@,
            option_fields: self.option_fields@,
        }
    }
}

impl OptionsTemplateView {
    /// The number of bytes this definition takes on the wire.
    pub open spec fn wire_len(self) -> int {
        6 + 4 * (self.scope_fields.len() as int) + 4 * (self.option_fields.len() as int)
    }
}

/// The options template that `s` starts with: its id, the byte budget of the
/// scope fields, the byte budget of the option fields, then the fields of
/// both. The budgets are judged before the length: one that is no multiple of
/// four makes the definition invalid however many bytes follow.
pub open spec fn parse_options_template(s: Seq<u8>) -> Result<OptionsTemplateView, ErrorView> {
    if s.len() < 6 {
        Err(short(6, s.len() as int))
    } else if u16_at(s, 2) % 4 != 0 || u16_at(s, 4) % 4 != 0 {
        Err(ErrorView::InvalidTemplate)
    } else if s.len() < 6 + u16_at(s, 2) + u16_at(s, 4) {
        Err(short(6 + u16_at(s, 2) + u16_at(s, 4), s.len() as int))
    } else {
        Ok(
            OptionsTemplateView {
                id: u16_at(s, 0) as u16,
                scope_fields: fields_at(s, 6, u16_at(s, 2) / 4),
                option_fields: fields_at(s, 6 + u16_at(s, 2), u16_at(s, 4) / 4),
            },
        )
    }
}

impl OptionsTemplateDefinition {
    /// The number of bytes that the id and the two budgets take.
    pub const MIN_LEN: usize = 6;

    /// Parses the options template that `body` starts with. `body` begins
    /// after the flow-set header; bytes after the definition are not looked at.
    pub fn parse(body: &[u8]) -> (r: Result<Self, Error>)
        ensures
            match r {
                Ok(t) => parse_options_template(body@) == Ok::<OptionsTemplateView, ErrorView>(
                    t@,
                ),
                Err(e) => parse_options_template(body@) == Err::<OptionsTemplateView, ErrorView>(
                    e@,
                ),
            },
    {
        let mut c = ByteCursor::new(body);
        if body.len() < Self::MIN_LEN {
            return Err(Error::NotEnoughData { expected: Self::MIN_LEN, actual: body.len() });
        }
        let id = match c.read_u16() {
            Ok(v) => v,
            Err(e) => { return Err(e); },
        };
        let scope_len = match c.read_u16() {
            Ok(v) => v,
            Err(e) => { return Err(e); },
        };
        let option_len = match c.read_u16() {
            Ok(v) => v,
            Err(e) => { return Err(e); },
        };
        if scope_len % 4 != 0 || option_len % 4 != 0 {
            return Err(Error::InvalidTemplate);
        }
        let scope_bytes = scope_len as usize;
        let option_bytes = option_len as usize;
        let needed = Self::MIN_LEN + scope_bytes + option_bytes;
        if body.len() < needed {
            return Err(Error::NotEnoughData { expected: needed, actual: body.len() });
        }
        let scope_fields = match read_fields(&mut c, scope_bytes / 4) {
            Ok(v) => v,
            Err(e) => { return Err(e); },
        };
        let option_fields = match read_fields(&mut c, option_bytes / 4) {
            Ok(v) => v,
            Err(e) => { return Err(e); },
        };
        Ok(OptionsTemplateDefinition { id, scope_fields, option_fields })
    }
}

/// Appends the fields of `more` to `fields`.
fn append_fields(fields: &mut Vec<FieldDefinition>, more: &Vec<FieldDefinition>)
    ensures
        final(fields)@ == old(fields)@ + more@,
{
    let mut i: usize = 0;
    while i < more.len()
        invariant
            i <= more.len(),
            fields@ == old(fields)@ + more@.subrange(0, i as int),
        decreases more.len() - i,
    {
        fields.push(more[i]);
        i = i + 1;
        assert(fields@ =~= old(fields)@ + more@.subrange(0, i as int));
    }
    assert(more@.subrange(0, i as int) =~= more@);
}

impl Clone for TemplateRecord {
    fn clone(&self) -> (copy: Self)
        ensures
            copy@ == self@,
    {
        let mut fields: Vec<FieldDefinition> = Vec::new();
        append_fields(&mut fields, &self.fields);
        assert(fields@ =~= self.fields@);
        TemplateRecord { id: self.id, fields }
    }
}

impl Clone for OptionsTemplateDefinition {
    fn clone(&self) -> (copy: Self)
        ensures
            copy@ == self@,
    {
        let mut scope_fields: Vec<FieldDefinition> = Vec::new();
        append_fields(&mut scope_fields, &self.scope_fields);
        let mut option_fields: Vec<FieldDefinition> = Vec::new();
        append_fields(&mut option_fields, &self.option_fields);
        assert(scope_fields@ =~= self.scope_fields@);
        assert(option_fields@ =~= self.option_fields@);
        OptionsTemplateDefinition { id: self.id, scope_fields, option_fields }
    }
}

/// What a template cache holds under one key: either kind of definition.
#[derive(Debug, PartialEq)]
pub enum Definition {
    Template(TemplateRecord),
    Options(OptionsTemplateDefinition),
}

/// The mathematical value of a [`Definition`].
pub ghost enum DefinitionView {
    Template(TemplateView),
    Options(OptionsTemplateView),
}

impl View for Definition {
    type V = DefinitionView;

    open spec fn view(&self) -> DefinitionView {
        match self {
            Definition::Template(t) => DefinitionView::Template(t@),
            Definition::Options(o) => DefinitionView::Options(o@),
        }
    }
}

impl DefinitionView {
    /// The fields of one record laid out by this definition, in wire order:
    /// a template's fields, or an options template's scope fields followed by
    /// its option fields.
    pub open spec fn layout(self) -> Seq<FieldDefinition> {
        match self {
            DefinitionView::Template(t) => t.fields,
            DefinitionView::Options(o) => o.scope_fields + o.option_fields,
        }
    }

    /// The template id of the definition.
    pub open spec fn id(self) -> u16 {
        match self {
            DefinitionView::Template(t) => t.id,
            DefinitionView::Options(o) => o.id,
        }
    }
}

impl Clone for Definition {
    fn clone(&self) -> (copy: Self)
        ensures
            copy@ == self@,
    {
        match self {
            Definition::Template(t) => Definition::Template(t.clone()),
            Definition::Options(o) => Definition::Options(o.clone()),
        }
    }
}

impl Definition {
    /// The template id of the definition.
    pub fn id(&self) -> (id: u16)
        ensures
            id == self@.id(),
    {
        match self {
            Definition::Template(t) => t.id,
            Definition::Options(o) => o.id,
        }
    }

    /// The fields of one record laid out by this definition, in wire order.
    pub fn layout(&self) -> (fields: Vec<FieldDefinition>)
        ensures
            fields@ == self@.layout(),
    {
        let mut fields: Vec<FieldDefinition> = Vec::new();
        match self {
            Definition::Template(t) => {
                append_fields(&mut fields, &t.fields);
            },
            Definition::Options(o) => {
                append_fields(&mut fields, &o.scope_fields);
                append_fields(&mut fields, &o.option_fields);
            },
        }
        fields
    }
}

} // verus!
