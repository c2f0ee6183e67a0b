//! Front matter: finding the block at the start of a document, and the
//! Markdown that follows it.
use vstd::prelude::*;
use vstd::utf8::{decode_utf8, encode_utf8, valid_utf8};
use crate::content::mdast::{root_children, MdNode};
use crate::text::trim_start;

verus! {

/// The notation of a front matter block.
#[derive(Clone, Copy, Debug, PartialEq, Eq, Structural)]
pub enum FrontmatterFormat {
    Toml,
    Yaml,
}

/// A front matter block: its notation, its text, and the byte offset where
/// it ends in the document.
pub struct FrontmatterBlock {
    pub format: FrontmatterFormat,
    pub value: String,
    pub end_offset: Option<usize>,
}

/// The front matter block of a syntax tree: its first top-level node when
/// that is a TOML or YAML block.
pub open spec fn spec_frontmatter_block(root: MdNode) -> Option<(FrontmatterFormat, Seq<char>, Option<usize>)> {
    let children = root_children(root);
    if children.len() == 0 {
        None
    } else {
        match children[0] {
            MdNode::Toml(v, end) => Some((FrontmatterFormat::Toml, v@, end)),
            MdNode::Yaml(v, end) => Some((FrontmatterFormat::Yaml, v@, end)),
            _ => None,
        }
    }
}

/// The text that `String::from_utf8_lossy` decodes from the bytes.
pub uninterp spec fn lossy_utf8(bytes: Seq<u8>) -> Seq<char>;

/// Decodes bytes as UTF-8, replacing invalid sequences
/// (`String::from_utf8_lossy`).
///
/// Claimed of std, as its documentation states: valid UTF-8 decodes to the
/// text it encodes.
#[verifier::external_body]
fn utf8_lossy(bytes: &[u8]) -> (r: String)
    ensures
        r@ == lossy_utf8(bytes@),
        valid_utf8(bytes@) ==> r@ == decode_utf8(bytes@),
{
    String::from_utf8_lossy(bytes).into_owned()
}

/// The Markdown of a document after its front matter block: the text from
/// the block's end on, leading whitespace removed; the whole document when
/// there is no block; nothing when the block reaches the end.
pub open spec fn spec_content_after(original: Seq<char>, end_offset: Option<usize>) -> Seq<char> {
    match end_offset {
        Some(end) => if end >= encode_utf8(original).len() {
            Seq::empty()
        } else {
            trim_start(lossy_utf8(encode_utf8(original).skip(end as int)))
        },
        None => original,
    }
}

/// Finds front matter blocks and the Markdown that follows them.
pub struct FrontmatterParser {}

impl FrontmatterParser {
    pub fn new() -> (r: Self) {
        FrontmatterParser {  }
    }

    /// The front matter block of a syntax tree, if its first top-level node
    /// is one.
    pub fn frontmatter_block(&self, root: &MdNode) -> (r: Option<FrontmatterBlock>)
        ensures
            r is Some <==> spec_frontmatter_block(*root) is Some,
            r matches Some(b) ==> spec_frontmatter_block(*root) == Some((b.format, b.value@, b.end_offset)),
    {
        let children = match root {
            MdNode::Root(c) => c,
            _ => return None,
        };
        if children.len() == 0 {
            return None;
        }
        match &children[0] {
            MdNode::Toml(v, end) => Some(
                FrontmatterBlock { format: FrontmatterFormat::Toml, value: v.clone(), end_offset: *end },
            ),
            MdNode::Yaml(v, end) => Some(
                FrontmatterBlock { format: FrontmatterFormat::Yaml, value: v.clone(), end_offset: *end },
            ),
            _ => None,
        }
    }

    /// The Markdown of a document after its front matter block, which ends at
    /// byte `frontmatter_end_byte`.
    pub fn extract_content_using_ast_position(
        &self,
        original_content: &str,
        frontmatter_end_byte: Option<usize>,
    ) -> (r: String)
        ensures
            r@ == spec_content_after(original_content@, frontmatter_end_byte),
    {
        match frontmatter_end_byte {
            Some(end_byte) => {
                let bytes = original_content.as_bytes();
                if end_byte >= bytes.len() {
                    return String::new();
                }
                let mut remaining: Vec<u8> = Vec::new();
                let mut k: usize = end_byte;
                while k < bytes.len()
                    invariant
                        end_byte <= k <= bytes@.len(),
                        remaining@ == bytes@.subrange(end_byte as int, k as int),
                    decreases bytes.len() - k,
                {
                    remaining.push(bytes[k]);
                    proof {
                        assert(remaining@ =~= bytes@.subrange(end_byte as int, k + 1));
                    }
                    k = k + 1;
                }
                proof {
                    assert(remaining@ =~= encode_utf8(original_content@).skip(end_byte as int));
                }
                let decoded = utf8_lossy(remaining.as_slice());
                let chars = crate::text::chars_of(decoded.as_str());
                let trimmed = crate::text::trim_start_chars(chars.as_slice());
                crate::text::string_of(trimmed.as_slice())
            },
            None => crate::text::copy_str(original_content),
        }
    }
}

} // verus!
