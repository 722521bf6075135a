//! Recipe negotiation text: the variable lists a client sends, and the type
//! lists the controller answers with.
//!
//! A request names its variables as UTF-8 joined by commas and ended by CRLF.
//! The answer lists the variables' type names the same way, without the line
//! end; each name resolves through the [`DataType`] registry.

use vstd::prelude::*;
use vstd::string::StringSliceAdditionalSpecFns;
use vstd::utf8::{decode_utf8, encode_utf8, valid_utf8};

use crate::data::{type_named, DataType};
use crate::error::Error;
use crate::text::{lemma_text_of_bytes, lower_of, utf8_text};
use crate::types::append_bytes;

verus! {

broadcast use vstd::utf8::group_utf8_lib;

/// The views of a list of names.
pub open spec fn views(names: Seq<&str>) -> Seq<Seq<char>> {
    names.map_values(|s: &str| s@)
}

/// The UTF-8 bytes of `names` joined by commas.
pub open spec fn names_csv(names: Seq<Seq<char>>) -> Seq<u8>
    decreases names.len(),
{
    if names.len() == 0 {
        Seq::empty()
    } else if names.len() == 1 {
        encode_utf8(names[0])
    } else {
        names_csv(names.drop_last()) + seq![44u8] + encode_utf8(names.last())
    }
}

/// The variable list of a recipe request: the names joined by commas, then CRLF.
pub open spec fn recipe_text(names: Seq<Seq<char>>) -> Seq<u8> {
    names_csv(names) + seq![13u8, 10u8]
}

/// The UTF-8 bytes of `names` joined by commas.
pub fn csv_bytes(names: &[&str]) -> (r: Vec<u8>)
    ensures
        r@ == names_csv(views(names@)),
{
    let mut r: Vec<u8> = Vec::new();
    let mut i: usize = 0;
    while i < names.len()
        invariant
            i <= names@.len(),
            r@ == names_csv(views(names@.subrange(0, i as int))),
        decreases names@.len() - i,
    {
        let ghost before = views(names@.subrange(0, i as int));
        let ghost after = views(names@.subrange(0, i + 1));
        assert(after.drop_last() =~= before);
        assert(after.last() == names@[i as int]@);
        if i > 0 {
            r.push(44u8);
        }
        append_bytes(&mut r, names[i].as_bytes());
        assert(r@ =~= names_csv(after));
        i = i + 1;
    }
    assert(names@.subrange(0, i as int) =~= names@);
    r
}

/// Builds the variable list of a recipe request.
pub fn recipe_bytes(names: &[&str]) -> (r: Vec<u8>)
    ensures
        r@ == recipe_text(views(names@)),
{
    let mut r = csv_bytes(names);
    r.push(13u8);
    r.push(10u8);
    assert(r@ =~= recipe_text(views(names@)));
    r
}

/// The comma-separated pieces of `b`; there is always at least one.
pub open spec fn split_commas(b: Seq<u8>) -> Seq<Seq<u8>>
    decreases b.len(),
{
    if b.len() == 0 {
        seq![Seq::<u8>::empty()]
    } else {
        let prev = split_commas(b.drop_last());
        if b.last() == 44 {
            prev.push(Seq::<u8>::empty())
        } else {
            prev.update(prev.len() - 1, prev.last().push(b.last()))
        }
    }
}

/// Splitting gives at least one piece.
pub proof fn lemma_split_commas_nonempty(b: Seq<u8>)
    ensures
        split_commas(b).len() >= 1,
    decreases b.len(),
{
    if b.len() > 0 {
        lemma_split_commas_nonempty(b.drop_last());
    }
}

/// The type that one piece of a recipe answer names.
pub open spec fn piece_type(p: Seq<u8>) -> DataType {
    type_named(lower_of(decode_utf8(p)))
}

/// Whether each piece is valid UTF-8.
pub open spec fn all_valid(pieces: Seq<Seq<u8>>) -> bool {
    forall|i: int| 0 <= i < pieces.len() ==> valid_utf8(#[trigger] pieces[i])
}

/// The types that the comma-separated type names in `body` stand for, when
/// every name is valid UTF-8.
pub open spec fn types_of(body: Seq<u8>) -> Option<Seq<DataType>> {
    if all_valid(split_commas(body)) {
        Some(split_commas(body).map_values(|p: Seq<u8>| piece_type(p)))
    } else {
        None
    }
}

/// The type that one piece names, if the piece is valid UTF-8.
fn type_of_piece(p: &[u8]) -> (r: Option<DataType>)
    ensures
        r is Some <==> valid_utf8(p@),
        r is Some ==> r->0 == piece_type(p@),
{
    match utf8_text(p) {
        Some(s) => {
            proof {
                lemma_text_of_bytes(s, p@);
            }
            Some(DataType::new(s))
        },
        None => None,
    }
}

/// Reads the comma-separated type names of a recipe answer.
pub fn parse_types(body: &[u8]) -> (r: Result<Vec<DataType>, Error>)
    ensures
        types_of(body@) is Some ==> r is Ok && r->Ok_0@ == types_of(body@).unwrap(),
        types_of(body@) is None ==> r is Err && r->Err_0 is Deserialization,
{
    let mut types: Vec<DataType> = Vec::new();
    let mut current: Vec<u8> = Vec::new();
    let mut ok = true;
    let mut i: usize = 0;
    proof {
        lemma_split_commas_nonempty(body@.subrange(0, 0));
        assert(body@.subrange(0, 0) =~= Seq::<u8>::empty());
        assert(types@ =~= split_commas(body@.subrange(0, 0)).drop_last().map_values(
            |p: Seq<u8>| piece_type(p),
        ));
    }
    while i < body.len()
        invariant
            i <= body@.len(),
            split_commas(body@.subrange(0, i as int)).len() >= 1,
            current@ == split_commas(body@.subrange(0, i as int)).last(),
            ok == all_valid(split_commas(body@.subrange(0, i as int)).drop_last()),
            ok ==> types@ == split_commas(body@.subrange(0, i as int)).drop_last().map_values(
                |p: Seq<u8>| piece_type(p),
            ),
        decreases body@.len() - i,
    {
        let ghost prefix = body@.subrange(0, i as int);
        let ghost s = split_commas(prefix);
        let ghost next = body@.subrange(0, i + 1);
        assert(next.drop_last() =~= prefix);
        assert(next.last() == body@[i as int]);
        proof {
            lemma_split_commas_nonempty(next);
        }
        if body[i] == 44u8 {
            let t = type_of_piece(current.as_slice());
            proof {
                assert(split_commas(next) == s.push(Seq::<u8>::empty()));
                assert(split_commas(next).drop_last() =~= s);
                assert(s =~= s.drop_last().push(current@));
            }
            match t {
                Some(t) => {
                    if ok {
                        types.push(t);
                        assert(types@ =~= s.map_values(|p: Seq<u8>| piece_type(p)));
                    }
                },
                None => {
                    ok = false;
                },
            }
            current = Vec::new();
        } else {
            current.push(body[i]);
            proof {
                assert(split_commas(next) == s.update(s.len() - 1, s.last().push(body@[i as int])));
                assert(split_commas(next).drop_last() =~= s.drop_last());
            }
        }
        i = i + 1;
    }
    assert(body@.subrange(0, i as int) =~= body@);
    let ghost s = split_commas(body@);
    assert(s =~= s.drop_last().push(current@));
    let last = type_of_piece(current.as_slice());
    match last {
        Some(t) => {
            if ok {
                types.push(t);
                assert(types@ =~= s.map_values(|p: Seq<u8>| piece_type(p)));
                Ok(types)
            } else {
                Err(Error::Deserialization("type names are not UTF-8".to_owned()))
            }
        },
        None => {
            assert(!valid_utf8(s[s.len() - 1]));
            Err(Error::Deserialization("type names are not UTF-8".to_owned()))
        },
    }
}

} // verus!
