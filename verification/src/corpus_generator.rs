//! Corpus generator: produces serialized instances of each type definition
//! under the shared layout, to seed fuzzing with known-good inputs.
//!
//! Every encoding rule here follows the authoritative layout table: a 4-byte
//! little-endian count prefix for arrays, a 1-byte presence discriminant for
//! optionals, a 4-byte little-endian variant discriminant for enums, and an
//! 8-byte discriminator ahead of an account struct's fields.

use vstd::prelude::*;
use crate::ir::{
    EnumDefinition, EnumDefinitionV, EnumVariantDefinition, EnumVariantDefinitionV,
    FieldDefinition, FieldDefinitionV, StructDefinition, StructDefinitionV, TypeDefinition,
    TypeDefinitionV, TypeInfo, TypeInfoV, view_defs,
};
use crate::size_calculator::{spec_find_def, spec_is_account, ti_height};
use crate::strutil::{push_char, str_eq};

verus! {

/// One corpus entry: a named, serialized instance of a type.
#[derive(Debug, Clone, PartialEq)]
pub struct CorpusFile {
    /// File name, derived from the type name and the case.
    pub name: String,
    /// The type the instance belongs to.
    pub type_ident: String,
    /// The serialized bytes.
    pub data: Vec<u8>,
    /// Human-readable description of the case.
    pub description: String,
}

/// Ghost view of a corpus entry.
pub struct CorpusFileV {
    pub name: Seq<char>,
    pub type_ident: Seq<char>,
    pub data: Seq<u8>,
    pub description: Seq<char>,
}

impl View for CorpusFile {
    type V = CorpusFileV;

    open spec fn view(&self) -> CorpusFileV {
        CorpusFileV {
            name: self.name@,
            type_ident: self.type_ident@,
            data: self.data@,
            description: self.description@,
        }
    }
}

/// A run of identical bytes.
pub open spec fn repeat_byte(b: u8, n: nat) -> Seq<u8> {
    Seq::new(n, |i: int| b)
}

/// A run of zero bytes.
pub open spec fn zero_bytes(n: nat) -> Seq<u8> {
    repeat_byte(0, n)
}

/// The 4-byte little-endian encoding of a count or discriminant.
pub open spec fn le32(n: nat) -> Seq<u8> {
    seq![
        (n % 256) as u8,
        ((n / 256) % 256) as u8,
        ((n / 65536) % 256) as u8,
        ((n / 16777216) % 256) as u8,
    ]
}

fn push_repeat(v: &mut Vec<u8>, b: u8, n: usize)
    ensures
        final(v)@ == old(v)@ + repeat_byte(b, n as nat),
{
    let mut i: usize = 0;
    while i < n
        invariant
            i <= n,
            v@ =~= old(v)@ + repeat_byte(b, i as nat),
        decreases n - i,
    {
        v.push(b);
        assert(v@ =~= old(v)@ + repeat_byte(b, (i + 1) as nat));
        i = i + 1;
    }
    assert(v@ =~= old(v)@ + repeat_byte(b, n as nat));
}

fn push_bytes(v: &mut Vec<u8>, src: &Vec<u8>)
    ensures
        final(v)@ == old(v)@ + src@,
{
    let mut i: usize = 0;
    while i < src.len()
        invariant
            i <= src.len(),
            v@ =~= old(v)@ + src@.take(i as int),
        decreases src.len() - i,
    {
        v.push(src[i]);
        assert(v@ =~= old(v)@ + src@.take(i + 1)) by {
            assert(src@.take(i + 1) =~= src@.take(i as int).push(src@[i as int]));
        }
        i = i + 1;
    }
    assert(src@.take(src.len() as int) =~= src@);
}

fn push_le32(v: &mut Vec<u8>, n: usize)
    ensures
        final(v)@ == old(v)@ + le32(n as nat),
{
    v.push((n % 256) as u8);
    v.push(((n / 256) % 256) as u8);
    v.push(((n / 65536) % 256) as u8);
    v.push(((n / 16777216) % 256) as u8);
    assert(v@ =~= old(v)@ + le32(n as nat));
}

/// The minimal (all zero / absent / empty) encoding of one primitive.
pub open spec fn spec_min_prim(name: Seq<char>) -> Seq<u8> {
    if name == "bool"@ || name == "u8"@ || name == "i8"@ {
        zero_bytes(1)
    } else if name == "u16"@ || name == "i16"@ {
        zero_bytes(2)
    } else if name == "u32"@ || name == "i32"@ || name == "f32"@ {
        zero_bytes(4)
    } else if name == "u64"@ || name == "i64"@ || name == "f64"@ {
        zero_bytes(8)
    } else if name == "u128"@ || name == "i128"@ {
        zero_bytes(16)
    } else if name == "Pubkey"@ || name == "PublicKey"@ {
        zero_bytes(32)
    } else if name == "Signature"@ {
        zero_bytes(64)
    } else if name == "String"@ {
        zero_bytes(4)
    } else {
        Seq::empty()
    }
}

/// The maximal encoding of one primitive: every integer at its largest value,
/// the largest finite float bit patterns, keys and signatures saturated, and
/// a 100-character text.
pub open spec fn spec_max_prim(name: Seq<char>) -> Seq<u8> {
    if name == "bool"@ {
        seq![1u8]
    } else if name == "u8"@ {
        seq![255u8]
    } else if name == "i8"@ {
        seq![127u8]
    } else if name == "u16"@ {
        seq![255u8, 255u8]
    } else if name == "i16"@ {
        seq![255u8, 127u8]
    } else if name == "u32"@ {
        repeat_byte(255, 4)
    } else if name == "i32"@ {
        seq![255u8, 255u8, 255u8, 127u8]
    } else if name == "u64"@ {
        repeat_byte(255, 8)
    } else if name == "i64"@ {
        repeat_byte(255, 7).push(127)
    } else if name == "u128"@ {
        repeat_byte(255, 16)
    } else if name == "i128"@ {
        repeat_byte(255, 15).push(127)
    } else if name == "f32"@ {
        seq![255u8, 255u8, 127u8, 127u8]
    } else if name == "f64"@ {
        seq![255u8, 255u8, 255u8, 255u8, 255u8, 255u8, 239u8, 127u8]
    } else if name == "Pubkey"@ || name == "PublicKey"@ {
        repeat_byte(255, 32)
    } else if name == "Signature"@ {
        repeat_byte(255, 64)
    } else if name == "String"@ {
        le32(100) + repeat_byte(65, 100)
    } else {
        Seq::empty()
    }
}

/// The minimal encoding of one type: zero primitives, empty arrays, absent
/// optionals, nested structs field by field, and a zero discriminant for a
/// nested enum. User-defined chains deeper than the budget (hence cyclic)
/// contribute no bytes, like unknown names.
pub open spec fn spec_min_value(defs: Seq<TypeDefinitionV>, fuel: nat, t: TypeInfoV) -> Seq<u8>
    decreases fuel, 0int, ti_height(t),
{
    match t {
        TypeInfoV::Primitive(name) => spec_min_prim(name),
        TypeInfoV::Array(_) => zero_bytes(4),
        TypeInfoV::Option(_) => seq![0u8],
        TypeInfoV::UserDefined(name) => if fuel == 0 {
            Seq::empty()
        } else {
            match spec_find_def(defs, name) {
                Some(TypeDefinitionV::Struct(s)) => spec_min_fields(
                    defs,
                    (fuel - 1) as nat,
                    s.fields,
                ),
                Some(TypeDefinitionV::Enum(_)) => zero_bytes(4),
                None => Seq::empty(),
            }
        },
    }
}

/// The concatenated minimal encodings of a field list.
pub open spec fn spec_min_fields(
    defs: Seq<TypeDefinitionV>,
    fuel: nat,
    fields: Seq<FieldDefinitionV>,
) -> Seq<u8>
    decreases fuel, 1int, fields.len(),
{
    if fields.len() == 0 {
        Seq::empty()
    } else {
        spec_min_value(defs, fuel, fields[0].type_info) + spec_min_fields(
            defs,
            fuel,
            fields.skip(1),
        )
    }
}

/// The maximal encoding of one type: largest primitives, a ten-element array
/// of minimal elements, a present optional of the maximal inner value, and
/// nested structs field by field.
pub open spec fn spec_max_value(defs: Seq<TypeDefinitionV>, fuel: nat, t: TypeInfoV) -> Seq<u8>
    decreases fuel, 0int, ti_height(t), 1int,
{
    match t {
        TypeInfoV::Primitive(name) => spec_max_prim(name),
        TypeInfoV::Array(inner) => le32(10) + spec_min_elems(defs, fuel, *inner, 10),
        TypeInfoV::Option(inner) => seq![1u8] + spec_max_value(defs, fuel, *inner),
        TypeInfoV::UserDefined(name) => if fuel == 0 {
            Seq::empty()
        } else {
            match spec_find_def(defs, name) {
                Some(TypeDefinitionV::Struct(s)) => spec_max_fields(
                    defs,
                    (fuel - 1) as nat,
                    s.fields,
                ),
                Some(TypeDefinitionV::Enum(_)) => zero_bytes(4),
                None => Seq::empty(),
            }
        },
    }
}

/// A fixed count of minimal element encodings.
pub open spec fn spec_min_elems(
    defs: Seq<TypeDefinitionV>,
    fuel: nat,
    t: TypeInfoV,
    n: nat,
) -> Seq<u8>
    decreases fuel, 0int, ti_height(t), 0int, n,
{
    if n == 0 {
        Seq::empty()
    } else {
        spec_min_value(defs, fuel, t) + spec_min_elems(defs, fuel, t, (n - 1) as nat)
    }
}

/// The concatenated maximal encodings of a field list.
pub open spec fn spec_max_fields(
    defs: Seq<TypeDefinitionV>,
    fuel: nat,
    fields: Seq<FieldDefinitionV>,
) -> Seq<u8>
    decreases fuel, 1int, fields.len(),
{
    if fields.len() == 0 {
        Seq::empty()
    } else {
        spec_max_value(defs, fuel, fields[0].type_info) + spec_max_fields(
            defs,
            fuel,
            fields.skip(1),
        )
    }
}

/// Whether one character is an ASCII capital.
pub open spec fn is_ascii_upper(c: char) -> bool {
    'A' <= c && c <= 'Z'
}

/// Snake-case conversion helper: walks the characters, putting an underscore
/// before a capital that follows a non-capital.
pub open spec fn spec_snake_from(s: Seq<char>, i: int, prev_upper: bool) -> Seq<char>
    decreases s.len() - i when 0 <= i <= s.len()
{
    if i >= s.len() {
        Seq::empty()
    } else {
        let c = s[i];
        if is_ascii_upper(c) {
            let lowered = crate::strutil::lower_char(c);
            (if i > 0 && !prev_upper {
                seq!['_', lowered]
            } else {
                seq![lowered]
            }) + spec_snake_from(s, i + 1, true)
        } else {
            seq![c] + spec_snake_from(s, i + 1, false)
        }
    }
}

/// Snake-case rendering of a name: capitals are lowered, an underscore is put
/// before a capital that follows a non-capital, so runs of capitals stay
/// together.
pub open spec fn spec_snake(s: Seq<char>) -> Seq<char> {
    spec_snake_from(s, 0, false)
}

/// Converts a name to snake case.
pub fn to_snake_case(s: &str) -> (r: String)
    ensures
        r@ == spec_snake(s@),
{
    let len = s.unicode_len();
    let mut out = String::new();
    let mut prev_upper = false;
    let mut i: usize = 0;
    while i < len
        invariant
            i <= len,
            len == s@.len(),
            spec_snake(s@) == out@ + spec_snake_from(s@, i as int, prev_upper),
        decreases len - i,
    {
        let c = s.get_char(i);
        if 'A' <= c && c <= 'Z' {
            if i > 0 && !prev_upper {
                push_char(&mut out, '_');
            }
            push_char(&mut out, (((c as u8) + 32) as char));
            prev_upper = true;
        } else {
            push_char(&mut out, c);
            prev_upper = false;
        }
        i = i + 1;
    }
    out
}

/// Corpus generator over an immutable list of type definitions.
pub struct CorpusGenerator<'a> {
    /// All type definitions, for resolving user-defined references.
    pub type_defs: &'a Vec<TypeDefinition>,
}

fn min_prim(name: &str) -> (r: Vec<u8>)
    ensures
        r@ == spec_min_prim(name@),
{
    let mut v: Vec<u8> = Vec::new();
    if str_eq(name, "bool") || str_eq(name, "u8") || str_eq(name, "i8") {
        push_repeat(&mut v, 0, 1);
    } else if str_eq(name, "u16") || str_eq(name, "i16") {
        push_repeat(&mut v, 0, 2);
    } else if str_eq(name, "u32") || str_eq(name, "i32") || str_eq(name, "f32") {
        push_repeat(&mut v, 0, 4);
    } else if str_eq(name, "u64") || str_eq(name, "i64") || str_eq(name, "f64") {
        push_repeat(&mut v, 0, 8);
    } else if str_eq(name, "u128") || str_eq(name, "i128") {
        push_repeat(&mut v, 0, 16);
    } else if str_eq(name, "Pubkey") || str_eq(name, "PublicKey") {
        push_repeat(&mut v, 0, 32);
    } else if str_eq(name, "Signature") {
        push_repeat(&mut v, 0, 64);
    } else if str_eq(name, "String") {
        push_repeat(&mut v, 0, 4);
    }
    assert(v@ =~= spec_min_prim(name@));
    v
}

fn max_prim(name: &str) -> (r: Vec<u8>)
    ensures
        r@ == spec_max_prim(name@),
{
    let mut v: Vec<u8> = Vec::new();
    if str_eq(name, "bool") {
        v.push(1);
    } else if str_eq(name, "u8") {
        v.push(255);
    } else if str_eq(name, "i8") {
        v.push(127);
    } else if str_eq(name, "u16") {
        v.push(255);
        v.push(255);
    } else if str_eq(name, "i16") {
        v.push(255);
        v.push(127);
    } else if str_eq(name, "u32") {
        push_repeat(&mut v, 255, 4);
    } else if str_eq(name, "i32") {
        v.push(255);
        v.push(255);
        v.push(255);
        v.push(127);
    } else if str_eq(name, "u64") {
        push_repeat(&mut v, 255, 8);
    } else if str_eq(name, "i64") {
        push_repeat(&mut v, 255, 7);
        v.push(127);
    } else if str_eq(name, "u128") {
        push_repeat(&mut v, 255, 16);
    } else if str_eq(name, "i128") {
        push_repeat(&mut v, 255, 15);
        v.push(127);
    } else if str_eq(name, "f32") {
        // largest finite 4-byte float, little endian
        v.push(255);
        v.push(255);
        v.push(127);
        v.push(127);
    } else if str_eq(name, "f64") {
        // largest finite 8-byte float, little endian
        v.push(255);
        v.push(255);
        v.push(255);
        v.push(255);
        v.push(255);
        v.push(255);
        v.push(239);
        v.push(127);
    } else if str_eq(name, "Pubkey") || str_eq(name, "PublicKey") {
        push_repeat(&mut v, 255, 32);
    } else if str_eq(name, "Signature") {
        push_repeat(&mut v, 255, 64);
    } else if str_eq(name, "String") {
        push_le32(&mut v, 100);
        push_repeat(&mut v, 65, 100);
    }
    assert(v@ =~= spec_max_prim(name@));
    v
}

fn min_value(defs: &Vec<TypeDefinition>, fuel: usize, t: &TypeInfo) -> (r: Vec<u8>)
    ensures
        r@ == spec_min_value(view_defs(defs@), fuel as nat, t@),
    decreases fuel, 0int, ti_height(t@),
{
    match t {
        TypeInfo::Primitive(name) => min_prim(name.as_str()),
        TypeInfo::Array(_) => {
            let mut v: Vec<u8> = Vec::new();
            push_repeat(&mut v, 0, 4);
            assert(v@ =~= zero_bytes(4));
            v
        },
        TypeInfo::Option(_) => {
            let mut v: Vec<u8> = Vec::new();
            v.push(0);
            assert(v@ =~= seq![0u8]);
            v
        },
        TypeInfo::UserDefined(name) => {
            let mut v: Vec<u8> = Vec::new();
            if fuel > 0 {
                match crate::size_calculator::find_def(defs, name.as_str()) {
                    Some(TypeDefinition::Struct(s)) => {
                        min_fields(defs, fuel - 1, &s.fields, 0, &mut v);
                        assert(s.fields@.map_values(|f: FieldDefinition| f@).skip(0) =~= s.fields@
                            .map_values(|f: FieldDefinition| f@));
                    },
                    Some(TypeDefinition::Enum(_)) => {
                        push_repeat(&mut v, 0, 4);
                        assert(v@ =~= zero_bytes(4));
                    },
                    None => {},
                }
            }
            assert(v@ =~= spec_min_value(view_defs(defs@), fuel as nat, t@));
            v
        },
    }
}

fn min_fields(
    defs: &Vec<TypeDefinition>,
    fuel: usize,
    fields: &Vec<FieldDefinition>,
    i: usize,
    out: &mut Vec<u8>,
)
    requires
        i <= fields@.len(),
    ensures
        final(out)@ == old(out)@ + spec_min_fields(
            view_defs(defs@),
            fuel as nat,
            fields@.map_values(|f: FieldDefinition| f@).skip(i as int),
        ),
    decreases fuel, 1int, fields@.len() - i,
{
    let ghost fv = fields@.map_values(|f: FieldDefinition| f@);
    if i == fields.len() {
        assert(out@ =~= old(out)@ + spec_min_fields(
            view_defs(defs@),
            fuel as nat,
            fv.skip(i as int),
        ));
        return ;
    }
    let head = min_value(defs, fuel, &fields[i].type_info);
    push_bytes(out, &head);
    min_fields(defs, fuel, fields, i + 1, out);
    assert(fv.skip(i as int)[0] == fv[i as int]);
    assert(fv.skip(i as int).skip(1) =~= fv.skip(i + 1));
    assert(out@ =~= old(out)@ + spec_min_fields(view_defs(defs@), fuel as nat, fv.skip(i as int)));
}

fn max_value(defs: &Vec<TypeDefinition>, fuel: usize, t: &TypeInfo) -> (r: Vec<u8>)
    ensures
        r@ == spec_max_value(view_defs(defs@), fuel as nat, t@),
    decreases fuel, 0int, ti_height(t@), 1int,
{
    match t {
        TypeInfo::Primitive(name) => max_prim(name.as_str()),
        TypeInfo::Array(inner) => {
            let mut v: Vec<u8> = Vec::new();
            push_le32(&mut v, 10);
            min_elems(defs, fuel, inner, 10, &mut v);
            assert(v@ =~= spec_max_value(view_defs(defs@), fuel as nat, t@));
            v
        },
        TypeInfo::Option(inner) => {
            let mut v: Vec<u8> = Vec::new();
            v.push(1);
            let rest = max_value(defs, fuel, inner);
            push_bytes(&mut v, &rest);
            assert(v@ =~= spec_max_value(view_defs(defs@), fuel as nat, t@));
            v
        },
        TypeInfo::UserDefined(name) => {
            let mut v: Vec<u8> = Vec::new();
            if fuel > 0 {
                match crate::size_calculator::find_def(defs, name.as_str()) {
                    Some(TypeDefinition::Struct(s)) => {
                        max_fields(defs, fuel - 1, &s.fields, 0, &mut v);
                        assert(s.fields@.map_values(|f: FieldDefinition| f@).skip(0) =~= s.fields@
                            .map_values(|f: FieldDefinition| f@));
                    },
                    Some(TypeDefinition::Enum(_)) => {
                        push_repeat(&mut v, 0, 4);
                        assert(v@ =~= zero_bytes(4));
                    },
                    None => {},
                }
            }
            assert(v@ =~= spec_max_value(view_defs(defs@), fuel as nat, t@));
            v
        },
    }
}

fn min_elems(defs: &Vec<TypeDefinition>, fuel: usize, t: &TypeInfo, n: usize, out: &mut Vec<u8>)
    ensures
        final(out)@ == old(out)@ + spec_min_elems(view_defs(defs@), fuel as nat, t@, n as nat),
    decreases fuel, 0int, ti_height(t@), 0int, n,
{
    if n == 0 {
        assert(out@ =~= old(out)@ + spec_min_elems(view_defs(defs@), fuel as nat, t@, 0));
        return ;
    }
    let head = min_value(defs, fuel, t);
    push_bytes(out, &head);
    min_elems(defs, fuel, t, n - 1, out);
    assert(out@ =~= old(out)@ + spec_min_elems(view_defs(defs@), fuel as nat, t@, n as nat));
}

fn max_fields(
    defs: &Vec<TypeDefinition>,
    fuel: usize,
    fields: &Vec<FieldDefinition>,
    i: usize,
    out: &mut Vec<u8>,
)
    requires
        i <= fields@.len(),
    ensures
        final(out)@ == old(out)@ + spec_max_fields(
            view_defs(defs@),
            fuel as nat,
            fields@.map_values(|f: FieldDefinition| f@).skip(i as int),
        ),
    decreases fuel, 1int, fields@.len() - i,
{
    let ghost fv = fields@.map_values(|f: FieldDefinition| f@);
    if i == fields.len() {
        assert(out@ =~= old(out)@ + spec_max_fields(
            view_defs(defs@),
            fuel as nat,
            fv.skip(i as int),
        ));
        return ;
    }
    let head = max_value(defs, fuel, &fields[i].type_info);
    push_bytes(out, &head);
    max_fields(defs, fuel, fields, i + 1, out);
    assert(fv.skip(i as int)[0] == fv[i as int]);
    assert(fv.skip(i as int).skip(1) =~= fv.skip(i + 1));
    assert(out@ =~= old(out)@ + spec_max_fields(view_defs(defs@), fuel as nat, fv.skip(i as int)));
}

/// The expansion budget used for every corpus walk: the declaration count.
pub open spec fn corpus_fuel(defs: Seq<TypeDefinitionV>) -> nat {
    defs.len()
}

/// The fields walk of the case where every optional field is absent.
pub open spec fn spec_none_fields(
    defs: Seq<TypeDefinitionV>,
    fields: Seq<FieldDefinitionV>,
) -> Seq<u8>
    decreases fields.len(),
{
    if fields.len() == 0 {
        Seq::empty()
    } else {
        (match fields[0].type_info {
            TypeInfoV::Option(_) => seq![0u8],
            _ => spec_min_value(defs, corpus_fuel(defs), fields[0].type_info),
        }) + spec_none_fields(defs, fields.skip(1))
    }
}

/// The fields walk of the case where every optional field is present, holding
/// the minimal inner value.
pub open spec fn spec_some_fields(
    defs: Seq<TypeDefinitionV>,
    fields: Seq<FieldDefinitionV>,
) -> Seq<u8>
    decreases fields.len(),
{
    if fields.len() == 0 {
        Seq::empty()
    } else {
        (match fields[0].type_info {
            TypeInfoV::Option(inner) => seq![1u8] + spec_min_value(defs, corpus_fuel(defs), *inner),
            _ => spec_min_value(defs, corpus_fuel(defs), fields[0].type_info),
        }) + spec_some_fields(defs, fields.skip(1))
    }
}

/// The fields walk of the case where every array field is empty.
pub open spec fn spec_empty_vec_fields(
    defs: Seq<TypeDefinitionV>,
    fields: Seq<FieldDefinitionV>,
) -> Seq<u8>
    decreases fields.len(),
{
    if fields.len() == 0 {
        Seq::empty()
    } else {
        (match fields[0].type_info {
            TypeInfoV::Array(_) => zero_bytes(4),
            _ => spec_min_value(defs, corpus_fuel(defs), fields[0].type_info),
        }) + spec_empty_vec_fields(defs, fields.skip(1))
    }
}

/// The fields walk of the case where every array field holds one minimal
/// element.
pub open spec fn spec_single_vec_fields(
    defs: Seq<TypeDefinitionV>,
    fields: Seq<FieldDefinitionV>,
) -> Seq<u8>
    decreases fields.len(),
{
    if fields.len() == 0 {
        Seq::empty()
    } else {
        (match fields[0].type_info {
            TypeInfoV::Array(inner) => le32(1) + spec_min_value(defs, corpus_fuel(defs), *inner),
            _ => spec_min_value(defs, corpus_fuel(defs), fields[0].type_info),
        }) + spec_single_vec_fields(defs, fields.skip(1))
    }
}

/// The 8-byte discriminator prefix of an account struct, zeroed in a corpus
/// instance; an ordinary struct has none.
pub open spec fn spec_account_prefix(s: StructDefinitionV) -> Seq<u8> {
    if spec_is_account(s.metadata.attributes) {
        zero_bytes(8)
    } else {
        Seq::empty()
    }
}

/// The minimal corpus entry of a struct.
pub open spec fn spec_minimal_file(defs: Seq<TypeDefinitionV>, s: StructDefinitionV) -> CorpusFileV {
    CorpusFileV {
        name: spec_snake(s.name) + "_minimal"@,
        type_ident: s.name,
        data: spec_account_prefix(s) + spec_min_fields(defs, corpus_fuel(defs), s.fields),
        description: "Minimal valid instance with zero/default values"@,
    }
}

/// The maximal corpus entry of a struct.
pub open spec fn spec_maximal_file(defs: Seq<TypeDefinitionV>, s: StructDefinitionV) -> CorpusFileV {
    CorpusFileV {
        name: spec_snake(s.name) + "_maximal"@,
        type_ident: s.name,
        data: spec_account_prefix(s) + spec_max_fields(defs, corpus_fuel(defs), s.fields),
        description: "Maximal valid instance with maximum values"@,
    }
}

/// The all-optionals-absent corpus entry of a struct.
pub open spec fn spec_none_file(defs: Seq<TypeDefinitionV>, s: StructDefinitionV) -> CorpusFileV {
    CorpusFileV {
        name: spec_snake(s.name) + "_optional_none"@,
        type_ident: s.name,
        data: spec_account_prefix(s) + spec_none_fields(defs, s.fields),
        description: "Instance with all Option fields set to None"@,
    }
}

/// The all-optionals-present corpus entry of a struct.
pub open spec fn spec_some_file(defs: Seq<TypeDefinitionV>, s: StructDefinitionV) -> CorpusFileV {
    CorpusFileV {
        name: spec_snake(s.name) + "_optional_some"@,
        type_ident: s.name,
        data: spec_account_prefix(s) + spec_some_fields(defs, s.fields),
        description: "Instance with all Option fields set to Some"@,
    }
}

/// The all-arrays-empty corpus entry of a struct.
pub open spec fn spec_empty_vec_file(defs: Seq<TypeDefinitionV>, s: StructDefinitionV) -> CorpusFileV {
    CorpusFileV {
        name: spec_snake(s.name) + "_empty_vec"@,
        type_ident: s.name,
        data: spec_account_prefix(s) + spec_empty_vec_fields(defs, s.fields),
        description: "Instance with all Vec fields empty"@,
    }
}

/// The single-element-arrays corpus entry of a struct.
pub open spec fn spec_single_vec_file(defs: Seq<TypeDefinitionV>, s: StructDefinitionV) -> CorpusFileV {
    CorpusFileV {
        name: spec_snake(s.name) + "_single_elem_vec"@,
        type_ident: s.name,
        data: spec_account_prefix(s) + spec_single_vec_fields(defs, s.fields),
        description: "Instance with all Vec fields containing one element"@,
    }
}

/// Whether some field is optional.
pub open spec fn spec_has_optional(fields: Seq<FieldDefinitionV>) -> bool {
    exists|i: int| 0 <= i < fields.len() && fields[i].type_info is Option
}

/// Whether some field is an array.
pub open spec fn spec_has_vec(fields: Seq<FieldDefinitionV>) -> bool {
    exists|i: int| 0 <= i < fields.len() && fields[i].type_info is Array
}

/// The edge-case corpus entries of a struct: the optional pair when it has
/// optional fields, then the array pair when it has array fields.
pub open spec fn spec_edge_files(defs: Seq<TypeDefinitionV>, s: StructDefinitionV) -> Seq<
    CorpusFileV,
> {
    (if spec_has_optional(s.fields) {
        seq![spec_none_file(defs, s), spec_some_file(defs, s)]
    } else {
        Seq::empty()
    }) + (if spec_has_vec(s.fields) {
        seq![spec_empty_vec_file(defs, s), spec_single_vec_file(defs, s)]
    } else {
        Seq::empty()
    })
}

/// All corpus entries of a struct: minimal, maximal, then the edge cases.
pub open spec fn spec_struct_files(defs: Seq<TypeDefinitionV>, s: StructDefinitionV) -> Seq<
    CorpusFileV,
> {
    seq![spec_minimal_file(defs, s), spec_maximal_file(defs, s)] + spec_edge_files(defs, s)
}

/// The corpus entry of one enum variant: its 4-byte little-endian declaration
/// index, then its minimal payload.
pub open spec fn spec_variant_file(
    defs: Seq<TypeDefinitionV>,
    ename: Seq<char>,
    v: EnumVariantDefinitionV,
    idx: nat,
) -> CorpusFileV {
    CorpusFileV {
        name: spec_snake(ename) + "_"@ + spec_snake(v.spec_name()) + "_variant"@,
        type_ident: ename,
        data: le32(idx) + (match v {
            EnumVariantDefinitionV::Unit { .. } => Seq::empty(),
            EnumVariantDefinitionV::Tuple { types, .. } => spec_min_types(defs, types),
            EnumVariantDefinitionV::Struct { fields, .. } => spec_min_fields(
                defs,
                corpus_fuel(defs),
                fields,
            ),
        }),
        description: "Enum variant: "@ + v.spec_name(),
    }
}

/// The concatenated minimal encodings of a tuple variant's slots.
pub open spec fn spec_min_types(defs: Seq<TypeDefinitionV>, types: Seq<TypeInfoV>) -> Seq<u8>
    decreases types.len(),
{
    if types.len() == 0 {
        Seq::empty()
    } else {
        spec_min_value(defs, corpus_fuel(defs), types[0]) + spec_min_types(defs, types.skip(1))
    }
}

/// The corpus entries of an enum, one per variant from the given index on.
pub open spec fn spec_enum_files_from(
    defs: Seq<TypeDefinitionV>,
    e: EnumDefinitionV,
    i: int,
) -> Seq<CorpusFileV>
    decreases e.variants.len() - i,
{
    if i < 0 || i >= e.variants.len() {
        Seq::empty()
    } else {
        seq![spec_variant_file(defs, e.name, e.variants[i], i as nat)] + spec_enum_files_from(
            defs,
            e,
            i + 1,
        )
    }
}

/// All corpus entries of one definition.
pub open spec fn spec_def_files(defs: Seq<TypeDefinitionV>, d: TypeDefinitionV) -> Seq<
    CorpusFileV,
> {
    match d {
        TypeDefinitionV::Struct(s) => spec_struct_files(defs, s),
        TypeDefinitionV::Enum(e) => spec_enum_files_from(defs, e, 0),
    }
}

/// All corpus entries of the definitions from the given index on.
pub open spec fn spec_files_from(defs: Seq<TypeDefinitionV>, i: int) -> Seq<CorpusFileV>
    decreases defs.len() - i,
{
    if i < 0 || i >= defs.len() {
        Seq::empty()
    } else {
        spec_def_files(defs, defs[i]) + spec_files_from(defs, i + 1)
    }
}

fn snake_with_suffix(name: &str, suffix: &str) -> (r: String)
    ensures
        r@ == spec_snake(name@) + suffix@,
{
    let mut s = to_snake_case(name);
    s.append(suffix);
    s
}

fn none_fields(defs: &Vec<TypeDefinition>, fields: &Vec<FieldDefinition>, i: usize, out: &mut Vec<u8>)
    requires
        i <= fields@.len(),
    ensures
        final(out)@ == old(out)@ + spec_none_fields(
            view_defs(defs@),
            fields@.map_values(|f: FieldDefinition| f@).skip(i as int),
        ),
    decreases fields@.len() - i,
{
    let ghost fv = fields@.map_values(|f: FieldDefinition| f@);
    if i == fields.len() {
        assert(out@ =~= old(out)@ + spec_none_fields(view_defs(defs@), fv.skip(i as int)));
        return ;
    }
    match &fields[i].type_info {
        TypeInfo::Option(_) => {
            out.push(0);
        },
        _ => {
            let head = min_value(defs, defs.len(), &fields[i].type_info);
            push_bytes(out, &head);
        },
    }
    none_fields(defs, fields, i + 1, out);
    assert(fv.skip(i as int)[0] == fv[i as int]);
    assert(fv.skip(i as int).skip(1) =~= fv.skip(i + 1));
    assert(out@ =~= old(out)@ + spec_none_fields(view_defs(defs@), fv.skip(i as int)));
}

fn some_fields(defs: &Vec<TypeDefinition>, fields: &Vec<FieldDefinition>, i: usize, out: &mut Vec<u8>)
    requires
        i <= fields@.len(),
    ensures
        final(out)@ == old(out)@ + spec_some_fields(
            view_defs(defs@),
            fields@.map_values(|f: FieldDefinition| f@).skip(i as int),
        ),
    decreases fields@.len() - i,
{
    let ghost fv = fields@.map_values(|f: FieldDefinition| f@);
    if i == fields.len() {
        assert(out@ =~= old(out)@ + spec_some_fields(view_defs(defs@), fv.skip(i as int)));
        return ;
    }
    match &fields[i].type_info {
        TypeInfo::Option(inner) => {
            out.push(1);
            let head = min_value(defs, defs.len(), inner);
            push_bytes(out, &head);
        },
        _ => {
            let head = min_value(defs, defs.len(), &fields[i].type_info);
            push_bytes(out, &head);
        },
    }
    some_fields(defs, fields, i + 1, out);
    assert(fv.skip(i as int)[0] == fv[i as int]);
    assert(fv.skip(i as int).skip(1) =~= fv.skip(i + 1));
    assert(out@ =~= old(out)@ + spec_some_fields(view_defs(defs@), fv.skip(i as int)));
}

fn empty_vec_fields(
    defs: &Vec<TypeDefinition>,
    fields: &Vec<FieldDefinition>,
    i: usize,
    out: &mut Vec<u8>,
)
    requires
        i <= fields@.len(),
    ensures
        final(out)@ == old(out)@ + spec_empty_vec_fields(
            view_defs(defs@),
            fields@.map_values(|f: FieldDefinition| f@).skip(i as int),
        ),
    decreases fields@.len() - i,
{
    let ghost fv = fields@.map_values(|f: FieldDefinition| f@);
    if i == fields.len() {
        assert(out@ =~= old(out)@ + spec_empty_vec_fields(view_defs(defs@), fv.skip(i as int)));
        return ;
    }
    match &fields[i].type_info {
        TypeInfo::Array(_) => {
            push_repeat(out, 0, 4);
        },
        _ => {
            let head = min_value(defs, defs.len(), &fields[i].type_info);
            push_bytes(out, &head);
        },
    }
    empty_vec_fields(defs, fields, i + 1, out);
    assert(fv.skip(i as int)[0] == fv[i as int]);
    assert(fv.skip(i as int).skip(1) =~= fv.skip(i + 1));
    assert(out@ =~= old(out)@ + spec_empty_vec_fields(view_defs(defs@), fv.skip(i as int)));
}

fn single_vec_fields(
    defs: &Vec<TypeDefinition>,
    fields: &Vec<FieldDefinition>,
    i: usize,
    out: &mut Vec<u8>,
)
    requires
        i <= fields@.len(),
    ensures
        final(out)@ == old(out)@ + spec_single_vec_fields(
            view_defs(defs@),
            fields@.map_values(|f: FieldDefinition| f@).skip(i as int),
        ),
    decreases fields@.len() - i,
{
    let ghost fv = fields@.map_values(|f: FieldDefinition| f@);
    if i == fields.len() {
        assert(out@ =~= old(out)@ + spec_single_vec_fields(view_defs(defs@), fv.skip(i as int)));
        return ;
    }
    match &fields[i].type_info {
        TypeInfo::Array(inner) => {
            push_le32(out, 1);
            let head = min_value(defs, defs.len(), inner);
            push_bytes(out, &head);
        },
        _ => {
            let head = min_value(defs, defs.len(), &fields[i].type_info);
            push_bytes(out, &head);
        },
    }
    single_vec_fields(defs, fields, i + 1, out);
    assert(fv.skip(i as int)[0] == fv[i as int]);
    assert(fv.skip(i as int).skip(1) =~= fv.skip(i + 1));
    assert(out@ =~= old(out)@ + spec_single_vec_fields(view_defs(defs@), fv.skip(i as int)));
}

fn min_types(defs: &Vec<TypeDefinition>, types: &Vec<TypeInfo>, i: usize, out: &mut Vec<u8>)
    requires
        i <= types@.len(),
    ensures
        final(out)@ == old(out)@ + spec_min_types(
            view_defs(defs@),
            types@.map_values(|t: TypeInfo| t@).skip(i as int),
        ),
    decreases types@.len() - i,
{
    let ghost tv = types@.map_values(|t: TypeInfo| t@);
    if i == types.len() {
        assert(out@ =~= old(out)@ + spec_min_types(view_defs(defs@), tv.skip(i as int)));
        return ;
    }
    let head = min_value(defs, defs.len(), &types[i]);
    push_bytes(out, &head);
    min_types(defs, types, i + 1, out);
    assert(tv.skip(i as int)[0] == tv[i as int]);
    assert(tv.skip(i as int).skip(1) =~= tv.skip(i + 1));
    assert(out@ =~= old(out)@ + spec_min_types(view_defs(defs@), tv.skip(i as int)));
}

fn account_prefix(s: &StructDefinition, out: &mut Vec<u8>)
    ensures
        final(out)@ == old(out)@ + spec_account_prefix(s@),
{
    if crate::size_calculator::metadata_is_account_exec(&s.metadata) {
        push_repeat(out, 0, 8);
    }
    assert(out@ =~= old(out)@ + spec_account_prefix(s@));
}

impl<'a> CorpusGenerator<'a> {
    /// Create a new corpus generator over the given definitions.
    pub fn new(type_defs: &'a Vec<TypeDefinition>) -> (r: Self)
        ensures
            r.type_defs@ == type_defs@,
    {
        CorpusGenerator { type_defs }
    }

    /// The minimal serialized value of one type.
    pub fn serialize_minimal_value(&self, type_info: &TypeInfo, _optional: bool) -> (r: Vec<u8>)
        ensures
            r@ == spec_min_value(
                view_defs(self.type_defs@),
                corpus_fuel(view_defs(self.type_defs@)),
                type_info@,
            ),
    {
        min_value(self.type_defs, self.type_defs.len(), type_info)
    }

    /// The maximal serialized value of one type.
    pub fn serialize_maximal_value(&self, type_info: &TypeInfo, _optional: bool) -> (r: Vec<u8>)
        ensures
            r@ == spec_max_value(
                view_defs(self.type_defs@),
                corpus_fuel(view_defs(self.type_defs@)),
                type_info@,
            ),
    {
        max_value(self.type_defs, self.type_defs.len(), type_info)
    }

    /// The minimal serialized value of one primitive.
    pub fn serialize_minimal_primitive(&self, tname: &str) -> (r: Vec<u8>)
        ensures
            r@ == spec_min_prim(tname@),
    {
        min_prim(tname)
    }

    /// The maximal serialized value of one primitive.
    pub fn serialize_maximal_primitive(&self, tname: &str) -> (r: Vec<u8>)
        ensures
            r@ == spec_max_prim(tname@),
    {
        max_prim(tname)
    }

    /// The minimal corpus entry of a struct: zeroed discriminator when it is
    /// an account, then every field at its minimal encoding.
    pub fn generate_minimal_struct(&self, struct_def: &StructDefinition) -> (r: CorpusFile)
        ensures
            r@ == spec_minimal_file(view_defs(self.type_defs@), struct_def@),
    {
        let mut data: Vec<u8> = Vec::new();
        account_prefix(struct_def, &mut data);
        min_fields(self.type_defs, self.type_defs.len(), &struct_def.fields, 0, &mut data);
        assert(struct_def.fields@.map_values(|f: FieldDefinition| f@).skip(0) =~= struct_def
            .fields@.map_values(|f: FieldDefinition| f@));
        CorpusFile {
            name: snake_with_suffix(struct_def.name.as_str(), "_minimal"),
            type_ident: struct_def.name.clone(),
            data,
            description: String::from_str("Minimal valid instance with zero/default values"),
        }
    }

    /// The maximal corpus entry of a struct.
    pub fn generate_maximal_struct(&self, struct_def: &StructDefinition) -> (r: Option<CorpusFile>)
        ensures
            r matches Some(f) && f@ == spec_maximal_file(view_defs(self.type_defs@), struct_def@),
    {
        let mut data: Vec<u8> = Vec::new();
        account_prefix(struct_def, &mut data);
        max_fields(self.type_defs, self.type_defs.len(), &struct_def.fields, 0, &mut data);
        assert(struct_def.fields@.map_values(|f: FieldDefinition| f@).skip(0) =~= struct_def
            .fields@.map_values(|f: FieldDefinition| f@));
        Some(
            CorpusFile {
                name: snake_with_suffix(struct_def.name.as_str(), "_maximal"),
                type_ident: struct_def.name.clone(),
                data,
                description: String::from_str("Maximal valid instance with maximum values"),
            },
        )
    }

    /// The corpus entry with every optional field absent.
    pub fn generate_optional_none_case(&self, struct_def: &StructDefinition) -> (r: CorpusFile)
        ensures
            r@ == spec_none_file(view_defs(self.type_defs@), struct_def@),
    {
        let mut data: Vec<u8> = Vec::new();
        account_prefix(struct_def, &mut data);
        none_fields(self.type_defs, &struct_def.fields, 0, &mut data);
        assert(struct_def.fields@.map_values(|f: FieldDefinition| f@).skip(0) =~= struct_def
            .fields@.map_values(|f: FieldDefinition| f@));
        CorpusFile {
            name: snake_with_suffix(struct_def.name.as_str(), "_optional_none"),
            type_ident: struct_def.name.clone(),
            data,
            description: String::from_str("Instance with all Option fields set to None"),
        }
    }

    /// The corpus entry with every optional field present.
    pub fn generate_optional_some_case(&self, struct_def: &StructDefinition) -> (r: CorpusFile)
        ensures
            r@ == spec_some_file(view_defs(self.type_defs@), struct_def@),
    {
        let mut data: Vec<u8> = Vec::new();
        account_prefix(struct_def, &mut data);
        some_fields(self.type_defs, &struct_def.fields, 0, &mut data);
        assert(struct_def.fields@.map_values(|f: FieldDefinition| f@).skip(0) =~= struct_def
            .fields@.map_values(|f: FieldDefinition| f@));
        CorpusFile {
            name: snake_with_suffix(struct_def.name.as_str(), "_optional_some"),
            type_ident: struct_def.name.clone(),
            data,
            description: String::from_str("Instance with all Option fields set to Some"),
        }
    }

    /// The corpus entry with every array field empty.
    pub fn generate_empty_vec_case(&self, struct_def: &StructDefinition) -> (r: CorpusFile)
        ensures
            r@ == spec_empty_vec_file(view_defs(self.type_defs@), struct_def@),
    {
        let mut data: Vec<u8> = Vec::new();
        account_prefix(struct_def, &mut data);
        empty_vec_fields(self.type_defs, &struct_def.fields, 0, &mut data);
        assert(struct_def.fields@.map_values(|f: FieldDefinition| f@).skip(0) =~= struct_def
            .fields@.map_values(|f: FieldDefinition| f@));
        CorpusFile {
            name: snake_with_suffix(struct_def.name.as_str(), "_empty_vec"),
            type_ident: struct_def.name.clone(),
            data,
            description: String::from_str("Instance with all Vec fields empty"),
        }
    }

    /// The corpus entry with every array field holding one element.
    pub fn generate_single_elem_vec_case(&self, struct_def: &StructDefinition) -> (r: CorpusFile)
        ensures
            r@ == spec_single_vec_file(view_defs(self.type_defs@), struct_def@),
    {
        let mut data: Vec<u8> = Vec::new();
        account_prefix(struct_def, &mut data);
        single_vec_fields(self.type_defs, &struct_def.fields, 0, &mut data);
        assert(struct_def.fields@.map_values(|f: FieldDefinition| f@).skip(0) =~= struct_def
            .fields@.map_values(|f: FieldDefinition| f@));
        CorpusFile {
            name: snake_with_suffix(struct_def.name.as_str(), "_single_elem_vec"),
            type_ident: struct_def.name.clone(),
            data,
            description: String::from_str("Instance with all Vec fields containing one element"),
        }
    }

    /// The edge-case corpus entries of a struct.
    pub fn generate_struct_edge_cases(&self, struct_def: &StructDefinition) -> (r: Vec<CorpusFile>)
        ensures
            r@.map_values(|f: CorpusFile| f@) == spec_edge_files(
                view_defs(self.type_defs@),
                struct_def@,
            ),
    {
        let mut files: Vec<CorpusFile> = Vec::new();
        let mut has_optional = false;
        let mut has_vec = false;
        let ghost fv = struct_def.fields@.map_values(|f: FieldDefinition| f@);
        let mut i: usize = 0;
        while i < struct_def.fields.len()
            invariant
                i <= struct_def.fields.len(),
                fv == struct_def.fields@.map_values(|f: FieldDefinition| f@),
                fv.len() == struct_def.fields@.len(),
                has_optional == exists|j: int| 0 <= j < i && fv[j].type_info is Option,
                has_vec == exists|j: int| 0 <= j < i && fv[j].type_info is Array,
            decreases struct_def.fields.len() - i,
        {
            match &struct_def.fields[i].type_info {
                TypeInfo::Option(_) => {
                    assert(fv[i as int].type_info is Option);
                    has_optional = true;
                },
                TypeInfo::Array(_) => {
                    assert(fv[i as int].type_info is Array);
                    has_vec = true;
                },
                _ => {},
            }
            i = i + 1;
        }
        assert(has_optional == spec_has_optional(fv));
        assert(has_vec == spec_has_vec(fv));
        if has_optional {
            files.push(self.generate_optional_none_case(struct_def));
            files.push(self.generate_optional_some_case(struct_def));
        }
        if has_vec {
            files.push(self.generate_empty_vec_case(struct_def));
            files.push(self.generate_single_elem_vec_case(struct_def));
        }
        assert(files@.map_values(|f: CorpusFile| f@) =~= spec_edge_files(
            view_defs(self.type_defs@),
            struct_def@,
        ));
        files
    }

    /// All corpus entries of a struct: minimal, maximal, then the edge cases.
    pub fn generate_struct_corpus(&self, struct_def: &StructDefinition) -> (r: Vec<CorpusFile>)
        ensures
            r@.map_values(|f: CorpusFile| f@) == spec_struct_files(
                view_defs(self.type_defs@),
                struct_def@,
            ),
    {
        let mut files: Vec<CorpusFile> = Vec::new();
        files.push(self.generate_minimal_struct(struct_def));
        match self.generate_maximal_struct(struct_def) {
            Some(maximal) => files.push(maximal),
            None => {},
        }
        let mut edges = self.generate_struct_edge_cases(struct_def);
        let ghost before = files@;
        let ghost edges_v = edges@;
        while edges.len() > 0
            invariant
                files@.len() >= before.len(),
                files@ =~= before + edges_v.take(files@.len() - before.len()),
                edges@ =~= edges_v.skip(files@.len() - before.len()),
                files@.len() - before.len() + edges@.len() == edges_v.len(),
            decreases edges.len(),
        {
            let ghost k = files@.len() - before.len();
            let e = edges.remove(0);
            assert(e == edges_v[k]);
            files.push(e);
            assert(edges_v.take(k + 1) =~= edges_v.take(k).push(edges_v[k]));
            assert(edges@ =~= edges_v.skip(k + 1));
        }
        assert(edges_v.take(edges_v.len() as int) =~= edges_v);
        assert(files@ =~= before + edges_v);
        proof {
            lemma_map_concat(before, edges_v);
        }
        assert(files@.map_values(|f: CorpusFile| f@) =~= spec_struct_files(
            view_defs(self.type_defs@),
            struct_def@,
        ));
        files
    }

    /// The corpus entry of one enum variant.
    pub fn generate_enum_variant_corpus(
        &self,
        enum_def: &EnumDefinition,
        variant: &EnumVariantDefinition,
        discriminant: usize,
    ) -> (r: CorpusFile)
        ensures
            r@ == spec_variant_file(
                view_defs(self.type_defs@),
                enum_def@.name,
                variant@,
                discriminant as nat,
            ),
    {
        let mut data: Vec<u8> = Vec::new();
        push_le32(&mut data, discriminant);
        match variant {
            EnumVariantDefinition::Unit { .. } => {},
            EnumVariantDefinition::Tuple { types, .. } => {
                min_types(self.type_defs, types, 0, &mut data);
                assert(types@.map_values(|t: TypeInfo| t@).skip(0) =~= types@.map_values(
                    |t: TypeInfo| t@,
                ));
            },
            EnumVariantDefinition::Struct { fields, .. } => {
                min_fields(self.type_defs, self.type_defs.len(), fields, 0, &mut data);
                assert(fields@.map_values(|f: FieldDefinition| f@).skip(0) =~= fields@.map_values(
                    |f: FieldDefinition| f@,
                ));
            },
        }
        let mut name = to_snake_case(enum_def.name.as_str());
        push_char(&mut name, '_');
        let vn = to_snake_case(variant.name());
        name.append(vn.as_str());
        name.append("_variant");
        proof {
            reveal_strlit("_");
            assert(name@ =~= spec_snake(enum_def@.name) + "_"@ + spec_snake(variant@.spec_name())
                + "_variant"@);
        }
        let mut description = String::from_str("Enum variant: ");
        description.append(variant.name());
        CorpusFile { name, type_ident: enum_def.name.clone(), data, description }
    }

    /// All corpus entries of an enum, one per variant in declaration order.
    pub fn generate_enum_corpus(&self, enum_def: &EnumDefinition) -> (r: Vec<CorpusFile>)
        ensures
            r@.map_values(|f: CorpusFile| f@) == spec_enum_files_from(
                view_defs(self.type_defs@),
                enum_def@,
                0,
            ),
    {
        let ghost dv = view_defs(self.type_defs@);
        let ghost ev = enum_def@;
        let mut files: Vec<CorpusFile> = Vec::new();
        let mut i: usize = 0;
        while i < enum_def.variants.len()
            invariant
                i <= enum_def.variants.len(),
                dv == view_defs(self.type_defs@),
                ev == enum_def@,
                ev.variants.len() == enum_def.variants@.len(),
                spec_enum_files_from(dv, ev, 0) =~= files@.map_values(|f: CorpusFile| f@)
                    + spec_enum_files_from(dv, ev, i as int),
            decreases enum_def.variants.len() - i,
        {
            let ghost prev = files@;
            let f = self.generate_enum_variant_corpus(enum_def, &enum_def.variants[i], i);
            assert(enum_def.variants[i as int]@ == ev.variants[i as int]);
            files.push(f);
            proof {
                lemma_files_push(prev, files@.last());
            }
            i = i + 1;
        }
        assert(spec_enum_files_from(dv, ev, enum_def.variants@.len() as int) =~= Seq::<
            CorpusFileV,
        >::empty());
        assert(files@.map_values(|f: CorpusFile| f@) =~= spec_enum_files_from(dv, ev, 0));
        files
    }

    /// All corpus entries of every definition, in declaration order.
    pub fn generate_all(&self) -> (r: Vec<CorpusFile>)
        ensures
            r@.map_values(|f: CorpusFile| f@) == spec_files_from(view_defs(self.type_defs@), 0),
    {
        let ghost dv = view_defs(self.type_defs@);
        let mut files: Vec<CorpusFile> = Vec::new();
        let mut i: usize = 0;
        while i < self.type_defs.len()
            invariant
                i <= self.type_defs@.len(),
                dv == view_defs(self.type_defs@),
                dv.len() == self.type_defs@.len(),
                spec_files_from(dv, 0) =~= files@.map_values(|f: CorpusFile| f@)
                    + spec_files_from(dv, i as int),
            decreases self.type_defs.len() - i,
        {
            let d = &self.type_defs[i];
            assert(d@ == dv[i as int]);
            let batch = match d {
                TypeDefinition::Struct(s) => self.generate_struct_corpus(s),
                TypeDefinition::Enum(e) => self.generate_enum_corpus(e),
            };
            let ghost batch_v = batch@;
            let ghost before = files@;
            let mut rest = batch;
            while rest.len() > 0
                invariant
                    files@.len() >= before.len(),
                    files@ =~= before + batch_v.take(files@.len() - before.len()),
                    rest@ =~= batch_v.skip(files@.len() - before.len()),
                    files@.len() - before.len() + rest@.len() == batch_v.len(),
                decreases rest.len(),
            {
                let ghost k = files@.len() - before.len();
                let e = rest.remove(0);
                assert(e == batch_v[k]);
                files.push(e);
                assert(batch_v.take(k + 1) =~= batch_v.take(k).push(batch_v[k]));
                assert(rest@ =~= batch_v.skip(k + 1));
            }
            assert(batch_v.take(batch_v.len() as int) =~= batch_v);
            assert(files@ =~= before + batch_v);
            proof {
                lemma_map_concat(before, batch_v);
            }
            i = i + 1;
        }
        assert(spec_files_from(dv, dv.len() as int) =~= Seq::<CorpusFileV>::empty());
        assert(files@.map_values(|f: CorpusFile| f@) =~= spec_files_from(dv, 0));
        files
    }
}

proof fn lemma_files_push(prev: Seq<CorpusFile>, x: CorpusFile)
    ensures
        prev.push(x).map_values(|f: CorpusFile| f@) == prev.map_values(|f: CorpusFile| f@).push(
            x@,
        ),
{
    assert(prev.push(x).map_values(|f: CorpusFile| f@) =~= prev.map_values(
        |f: CorpusFile| f@,
    ).push(x@));
}

proof fn lemma_map_concat(a: Seq<CorpusFile>, b: Seq<CorpusFile>)
    ensures
        (a + b).map_values(|f: CorpusFile| f@) == a.map_values(|f: CorpusFile| f@) + b.map_values(
            |f: CorpusFile| f@,
        ),
{
    assert((a + b).map_values(|f: CorpusFile| f@) =~= a.map_values(|f: CorpusFile| f@)
        + b.map_values(|f: CorpusFile| f@));
}

} // verus!
