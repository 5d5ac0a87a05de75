use vstd::prelude::*;
use crate::chunks::sections::PropValue;
use crate::error::ChunkLoadError;

verus! {

/// crab_nbt's parsed NBT document: a named root compound. Opaque here;
/// its contents are reached only through the accessors below.
#[verifier::external_type_specification]
#[verifier::external_body]
pub struct ExNbt(crab_nbt::Nbt);

/// crab_nbt's compound tag: a list of named child tags.
#[verifier::external_type_specification]
#[verifier::external_body]
pub struct ExNbtCompound(crab_nbt::NbtCompound);

/// crab_nbt's tag value: one node of the NBT tree.
#[verifier::external_type_specification]
#[verifier::external_body]
pub struct ExNbtTag(crab_nbt::NbtTag);

/// What parsing a binary NBT document yields on the given bytes, or
/// `None` where the parser rejects them. Parsing is a function of the
/// bytes alone.
pub uninterp spec fn spec_nbt_parse(bytes: Seq<u8>) -> Option<crab_nbt::Nbt>;

/// The root compound of a parsed document.
pub uninterp spec fn spec_nbt_root(nbt: crab_nbt::Nbt) -> crab_nbt::NbtCompound;

/// The byte tag a compound holds under the key, if any.
pub uninterp spec fn spec_byte_of(c: crab_nbt::NbtCompound, key: Seq<char>) -> Option<i8>;

/// The string tag a compound holds under the key, if any.
pub uninterp spec fn spec_string_of(c: crab_nbt::NbtCompound, key: Seq<char>) -> Option<Seq<char>>;

/// The list tag a compound holds under the key, if any.
pub uninterp spec fn spec_list_of(c: crab_nbt::NbtCompound, key: Seq<char>) -> Option<
    Seq<crab_nbt::NbtTag>,
>;

/// The compound tag a compound holds under the key, if any.
pub uninterp spec fn spec_compound_of(c: crab_nbt::NbtCompound, key: Seq<char>) -> Option<
    crab_nbt::NbtCompound,
>;

/// The long-array tag a compound holds under the key, if any.
pub uninterp spec fn spec_long_array_of(c: crab_nbt::NbtCompound, key: Seq<char>) -> Option<
    Seq<i64>,
>;

/// A tag's compound payload, when the tag is a compound.
pub uninterp spec fn spec_tag_compound(t: crab_nbt::NbtTag) -> Option<crab_nbt::NbtCompound>;

/// A compound's named children in storage order.
pub uninterp spec fn spec_children(c: crab_nbt::NbtCompound) -> Seq<(String, crab_nbt::NbtTag)>;

/// The primitive property value a tag collapses to.
pub uninterp spec fn spec_tag_prop(t: crab_nbt::NbtTag) -> PropValue;

/// Relies on crab_nbt::Nbt::read: parses a binary NBT document from the
/// byte buffer. crab_nbt reads through panicking buffer accessors, so a
/// truncated or invalid document can unwind instead of returning an
/// error; the call therefore runs on a scoped helper thread, joined
/// before returning, and an unwind there is reported as `MalformedNbt`,
/// like the parser's own errors.
#[verifier::external_body]
pub(crate) fn nbt_read(buf: &[u8]) -> (r: Result<crab_nbt::Nbt, ChunkLoadError>)
    ensures
        match r {
            Ok(nbt) => spec_nbt_parse(buf@) == Some(nbt),
            Err(e) => spec_nbt_parse(buf@) is None && e matches ChunkLoadError::MalformedNbt(_),
        },
{
    let joined = crossbeam_utils::thread::scope(|s| {
        s.spawn(|_| {
            let mut cursor: &[u8] = buf;
            crab_nbt::Nbt::read(&mut cursor)
        }).join()
    });
    match joined {
        Ok(Ok(Ok(nbt))) => Ok(nbt),
        Ok(Ok(Err(e))) => Err(ChunkLoadError::MalformedNbt(format!("{e}"))),
        _ => Err(ChunkLoadError::MalformedNbt("NBT stream is truncated or invalid".to_owned())),
    }
}

/// Relies on the public `root_tag` field of crab_nbt::Nbt: the document's
/// root compound.
#[verifier::external_body]
pub(crate) fn nbt_root(nbt: &crab_nbt::Nbt) -> (r: &crab_nbt::NbtCompound)
    ensures
        *r == spec_nbt_root(*nbt),
{
    &nbt.root_tag
}

/// Relies on crab_nbt::NbtCompound::get_byte: the byte tag stored under
/// `name`, if any; a function of the compound and the key.
pub assume_specification [ crab_nbt::NbtCompound::get_byte ](
    c: &crab_nbt::NbtCompound,
    name: &str,
) -> (r: Option<i8>)
    ensures
        r == spec_byte_of(*c, name@),
;

/// Relies on crab_nbt::NbtCompound::get_string: the string tag stored
/// under `name`, if any; a function of the compound and the key.
pub assume_specification<'a> [ crab_nbt::NbtCompound::get_string ](
    c: &'a crab_nbt::NbtCompound,
    name: &str,
) -> (r: Option<&'a String>)
    ensures
        match r {
            Some(s) => spec_string_of(*c, name@) == Some(s@),
            None => spec_string_of(*c, name@) is None,
        },
;

/// Relies on crab_nbt::NbtCompound::get_list: the list tag stored under
/// `name`, if any; a function of the compound and the key.
pub assume_specification<'a> [ crab_nbt::NbtCompound::get_list ](
    c: &'a crab_nbt::NbtCompound,
    name: &str,
) -> (r: Option<&'a Vec<crab_nbt::NbtTag>>)
    ensures
        match r {
            Some(l) => spec_list_of(*c, name@) == Some(l@),
            None => spec_list_of(*c, name@) is None,
        },
;

/// Relies on crab_nbt::NbtCompound::get_compound: the compound tag stored
/// under `name`, if any; a function of the compound and the key.
pub assume_specification<'a> [ crab_nbt::NbtCompound::get_compound ](
    c: &'a crab_nbt::NbtCompound,
    name: &str,
) -> (r: Option<&'a crab_nbt::NbtCompound>)
    ensures
        match r {
            Some(inner) => spec_compound_of(*c, name@) == Some(*inner),
            None => spec_compound_of(*c, name@) is None,
        },
;

/// Relies on crab_nbt::NbtCompound::get_long_array: the long-array tag
/// stored under `name`, if any; a function of the compound and the key.
pub assume_specification<'a> [ crab_nbt::NbtCompound::get_long_array ](
    c: &'a crab_nbt::NbtCompound,
    name: &str,
) -> (r: Option<&'a Vec<i64>>)
    ensures
        match r {
            Some(longs) => spec_long_array_of(*c, name@) == Some(longs@),
            None => spec_long_array_of(*c, name@) is None,
        },
;

/// Relies on crab_nbt::NbtTag::extract_compound: the tag's compound
/// payload when the tag is a compound, `None` otherwise.
pub assume_specification<'a> [ crab_nbt::NbtTag::extract_compound ](
    t: &'a crab_nbt::NbtTag,
) -> (r: Option<&'a crab_nbt::NbtCompound>)
    ensures
        match r {
            Some(inner) => spec_tag_compound(*t) == Some(*inner),
            None => spec_tag_compound(*t) is None,
        },
;

/// Relies on the public `child_tags` field of crab_nbt::NbtCompound: the
/// compound's named children in storage order.
#[verifier::external_body]
pub(crate) fn compound_child_tags(c: &crab_nbt::NbtCompound) -> (r: &Vec<
    (String, crab_nbt::NbtTag),
>)
    ensures
        r@ == spec_children(*c),
{
    &c.child_tags
}

/// Relies on matching crab_nbt::NbtTag's variants: primitive payloads move
/// over one for one, float payloads by their raw bit pattern, and every
/// non-primitive tag collapses to `Opaque`; a function of the tag alone.
#[verifier::external_body]
pub(crate) fn tag_to_prop(tag: &crab_nbt::NbtTag) -> (r: PropValue)
    ensures
        r == spec_tag_prop(*tag),
{
    match tag {
        crab_nbt::NbtTag::Byte(v) => PropValue::Byte(*v),
        crab_nbt::NbtTag::Short(v) => PropValue::Short(*v),
        crab_nbt::NbtTag::Int(v) => PropValue::Int(*v),
        crab_nbt::NbtTag::Long(v) => PropValue::Long(*v),
        crab_nbt::NbtTag::Float(v) => PropValue::FloatBits(v.to_bits()),
        crab_nbt::NbtTag::Double(v) => PropValue::DoubleBits(v.to_bits()),
        crab_nbt::NbtTag::String(v) => PropValue::Text(v.clone()),
        _ => PropValue::Opaque,
    }
}

} // verus!
