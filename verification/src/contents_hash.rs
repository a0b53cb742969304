//! The hash of everything that the generated output depends on: the
//! options, the generator's version and the text of every parsed shader
//! file, hashed with BLAKE3. The output records it, and is written again
//! only when it changes.

use vstd::prelude::*;
use vstd::utf8::encode_utf8;

use crate::deptree::DependencyTree;
use crate::source_file::SourceFile;

verus! {

#[verifier::external_type_specification]
#[verifier::external_body]
pub struct ExBlake3Hasher(blake3::Hasher);

/// The bytes that a BLAKE3 hasher has taken in so far.
pub uninterp spec fn hasher_input(h: blake3::Hasher) -> Seq<u8>;

/// The BLAKE3 hash of some bytes, in lower-case hexadecimal.
pub uninterp spec fn blake3_hex(bytes: Seq<u8>) -> Seq<char>;

/// `blake3::Hasher::new`: a hasher for the regular hash function that has
/// taken in nothing.
#[verifier::external_body]
fn hasher_new() -> (h: blake3::Hasher)
    ensures
        hasher_input(h) == Seq::<u8>::empty(),
{
    blake3::Hasher::new()
}

/// `blake3::Hasher::update`: takes in more bytes after those taken in so
/// far.
#[verifier::external_body]
fn hasher_update(h: &mut blake3::Hasher, input: &[u8])
    ensures
        hasher_input(*final(h)) == hasher_input(*old(h)) + input@,
{
    h.update(input);
}

/// `blake3::Hasher::finalize`, written with `Hash`'s `Display`: the hash of
/// all the bytes taken in, as 64 lower-case hexadecimal digits.
#[verifier::external_body]
fn hasher_finalize_hex(h: &blake3::Hasher) -> (r: String)
    ensures
        r@ == blake3_hex(hasher_input(*h)),
        r@.len() == 64,
{
    h.finalize().to_string()
}

/// The UTF-8 bytes of the texts, one after the other.
pub open spec fn utf8_concat(texts: Seq<Seq<char>>) -> Seq<u8>
    decreases texts.len(),
{
    if texts.len() == 0 {
        Seq::empty()
    } else {
        utf8_concat(texts.drop_last()) + encode_utf8(texts.last())
    }
}

/// The texts of parsed files.
pub open spec fn file_texts(files: Seq<SourceFile>) -> Seq<Seq<char>> {
    Seq::new(files.len(), |i: int| files[i].content@)
}

/// What the hash covers: the debug text of the options, the version of the
/// generator, then the text of each parsed file in the order of parsing.
pub open spec fn hashed_input(options_debug: Seq<char>, pkg_version: Seq<char>, texts: Seq<Seq<char>>) -> Seq<u8> {
    encode_utf8(options_debug) + encode_utf8(pkg_version) + utf8_concat(texts)
}

/// The BLAKE3 hash, in hexadecimal, of the debug text of the options, the
/// version of the generator and the text of every parsed file.
pub fn get_contents_hash(options_debug: &str, pkg_version: &str, dep_tree: &DependencyTree) -> (r: String)
    ensures
        r@ == blake3_hex(hashed_input(options_debug@, pkg_version@, file_texts(dep_tree.parsed_files_spec()))),
        r@.len() == 64,
{
    let files = dep_tree.parsed_files();
    let ghost texts = file_texts(files@);
    let mut hasher = hasher_new();
    hasher_update(&mut hasher, options_debug.as_bytes());
    hasher_update(&mut hasher, pkg_version.as_bytes());
    let ghost head = encode_utf8(options_debug@) + encode_utf8(pkg_version@);
    assert(hasher_input(hasher) == head);
    let mut i: usize = 0;
    assert(texts.take(0) =~= Seq::<Seq<char>>::empty());
    while i < files.len()
        invariant
            i <= files@.len(),
            texts == file_texts(files@),
            hasher_input(hasher) == head + utf8_concat(texts.take(i as int)),
        decreases files@.len() - i,
    {
        assert(texts.take(i + 1).drop_last() =~= texts.take(i as int));
        assert(texts.take(i + 1).last() == files@[i as int].content@);
        hasher_update(&mut hasher, files[i].content.as_str().as_bytes());
        assert(head + utf8_concat(texts.take(i as int)) + encode_utf8(files@[i as int].content@) =~= head
            + utf8_concat(texts.take(i + 1)));
        i += 1;
    }
    assert(texts.take(i as int) =~= texts);
    assert(head + utf8_concat(texts) =~= hashed_input(options_debug@, pkg_version@, texts));
    hasher_finalize_hex(&hasher)
}

} // verus!
