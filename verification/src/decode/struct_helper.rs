//! Decoding a struct from a map handle: walks the entries, finds each field
//! by its key (an index or a name), and skips the entries whose key names no
//! field of the struct.
use vstd::prelude::*;
use crate::decode::{DecodeHint, SimpleDecoderView, SpecDecoder, view_kind};
use crate::decode::ignore::{ignore, picked, reached, skips};
use crate::error::{Error, TypeMismatch};
use crate::primitive::{Primitive, integer_value, spec_to_usize};
use crate::text::{first_index_of, lemma_first_index_of, names_view, str_position};

verus! {

/// The field that a decoded key names among `fields`: an index names the
/// field at that index, or none if it is past the fields; a name names the
/// first field of that name, or none; anything else is a type mismatch.
pub open spec fn field_of<D: SpecDecoder>(key: SimpleDecoderView<D>, fields: Seq<&str>) -> Result<Option<usize>, Error> {
    match key {
        SimpleDecoderView::Primitive(p) => match spec_to_usize(p) {
            Ok(n) => if n < fields.len() { Ok(Some(n)) } else { Ok(None) },
            Err(e) => Err(e),
        },
        SimpleDecoderView::String(s) => match first_index_of(names_view(fields), s@) {
            Some(i) => Ok(Some(i as usize)),
            None => Ok(None),
        },
        _ => Err(Error::TypeMismatch(TypeMismatch { found: view_kind(key), expected: "identifier" })),
    }
}

/// A key given by name names the first field with the same text, and no
/// field when none has that text.
pub proof fn law_field_by_name<D: SpecDecoder>(s: String, fields: Seq<&str>)
    requires
        fields.len() <= usize::MAX,
    ensures
        match field_of(SimpleDecoderView::<D>::String(s), fields) {
            Ok(Some(i)) => i < fields.len() && fields[i as int]@ == s@ && forall|j: int|
                0 <= j < i ==> fields[j]@ != s@,
            Ok(None) => forall|j: int| 0 <= j < fields.len() ==> fields[j]@ != s@,
            Err(_) => false,
        },
{
    let names = names_view(fields);
    lemma_first_index_of(names, s@);
    assert(names.len() == fields.len());
    assert forall|j: int| 0 <= j < fields.len() implies #[trigger] names[j] == fields[j]@ by {}
    if let Some(k) = first_index_of(names, s@) {
        assert(0 <= k < fields.len());
        assert((k as usize) as int == k);
        assert forall|j: int| 0 <= j < k implies fields[j]@ != s@ by {
            assert(names[j] != s@);
        }
    } else {
        assert forall|j: int| 0 <= j < fields.len() implies fields[j]@ != s@ by {
            assert(names[j] != s@);
        }
    }
}

/// A key given by number names the field with that index, and no field
/// when the number is past the fields.
pub proof fn law_field_by_index<D: SpecDecoder>(p: Primitive, fields: Seq<&str>)
    ensures
        field_of(SimpleDecoderView::<D>::Primitive(p), fields) matches Ok(Some(n)) ==> n < fields.len()
            && integer_value(p) == Some(n as int),
        integer_value(p) matches Some(v) ==> 0 <= v <= usize::MAX ==> field_of(
            SimpleDecoderView::<D>::Primitive(p),
            fields,
        ) == (if v < fields.len() {
            Ok::<Option<usize>, Error>(Some(v as usize))
        } else {
            Ok::<Option<usize>, Error>(None)
        }),
{
}

/// Reads a decoded key as a field among `fields` (`field_of`).
pub fn field_index<D: SpecDecoder>(key: SimpleDecoderView<D>, fields: &'static [&'static str]) -> (r: Result<
    Option<usize>,
    Error,
>)
    ensures
        r == field_of(key, fields@),
        r matches Ok(Some(n)) ==> n < fields@.len(),
{
    match key {
        SimpleDecoderView::Primitive(p) => match p.to_usize() {
            Ok(n) => if n < fields.len() { Ok(Some(n)) } else { Ok(None) },
            Err(e) => Err(e),
        },
        SimpleDecoderView::String(s) => {
            let r = str_position(fields, s.as_str());
            proof {
                lemma_first_index_of(names_view(fields@), s@);
            }
            Ok(r)
        },
        _ => Err(key.mismatch("identifier")),
    }
}

/// Whether `r`, `map_out` and `d` are a result, a map handle left in the
/// helper (`None` once the map is ended) and a following state that the
/// walk for the next known field may give from the state `d0` and the map
/// handle `map`.  Each step's outcome is one its decoder allows; the first
/// failure is what comes out.  An entry whose key names no field has its
/// value skipped, and the walk goes on with the next entry.
pub open spec fn struct_next<D: SpecDecoder>(
    fields: Seq<&str>,
    d0: D,
    map: D::MapDecoder,
    r: Result<Option<(usize, D::AnyDecoder)>, Error>,
    map_out: Option<D::MapDecoder>,
    d: D,
) -> bool
    decreases D::map_left(map),
{
    exists|map1: D::MapDecoder, k: Result<Option<D::KeyDecoder>, Error>, d1: D|
        #[trigger] d0.map_next_state(map, map1, k, d1) && d0.map_next_spec(map, k) && match k {
            Err(e) => r == Err::<Option<(usize, D::AnyDecoder)>, Error>(e) && d == d1 && map_out == Some(map1),
            Ok(None) => map_out is None && d1.map_end_state(map1, d) && match d1.map_end_spec(map1) {
                Ok(()) => r == Ok::<Option<(usize, D::AnyDecoder)>, Error>(None),
                Err(e) => r == Err::<Option<(usize, D::AnyDecoder)>, Error>(e),
            },
            Ok(Some(key)) => D::map_left(map1) < D::map_left(map) && exists|d2: D|
                #[trigger] reached(d2) && d1.entry_key_state(key, d2) && match d1.entry_key_spec(key) {
                    Err(e) => r == Err::<Option<(usize, D::AnyDecoder)>, Error>(e) && d == d2 && map_out == Some(map1),
                    Ok((ka, value)) => exists|w: Result<SimpleDecoderView<D>, Error>, d3: D|
                        #[trigger] picked(w, d3) && d2.decode_spec(ka, DecodeHint::Identifier, w)
                            && d2.decode_state(ka, DecodeHint::Identifier, w, d3) && match w {
                            Err(e) => r == Err::<Option<(usize, D::AnyDecoder)>, Error>(e) && d == d3 && map_out == Some(map1),
                            Ok(view) => match field_of(view, fields) {
                                Err(e) => r == Err::<Option<(usize, D::AnyDecoder)>, Error>(e) && d == d3 && map_out == Some(map1),
                                Ok(Some(n)) => map_out == Some(map1) && d3.entry_value_state(value, d) && match d3.entry_value_spec(value) {
                                    Ok(a) => r == Ok::<Option<(usize, D::AnyDecoder)>, Error>(Some((n, a))),
                                    Err(e) => r == Err::<Option<(usize, D::AnyDecoder)>, Error>(e),
                                },
                                Ok(None) => exists|d4: D|
                                    #[trigger] reached(d4) && d3.entry_value_state(value, d4) && match d3.entry_value_spec(value) {
                                        Err(e) => r == Err::<Option<(usize, D::AnyDecoder)>, Error>(e) && d == d4 && map_out == Some(map1),
                                        Ok(va) => exists|r5: Result<(), Error>, d5: D|
                                            #[trigger] picked(r5, d5) && skips(d4, va, r5, d5) && match r5 {
                                                Err(e) => r == Err::<Option<(usize, D::AnyDecoder)>, Error>(e) && d == d5 && map_out == Some(map1),
                                                Ok(_) => struct_next(fields, d5, map1, r, map_out, d),
                                            },
                                    },
                            },
                        },
                },
        }
}

/// Walks the fields of a struct: the field names of the target type, and the
/// map handle until it is ended.
pub struct StructDecoderHelper<D: SpecDecoder> {
    fields: &'static [&'static str],
    map: Option<D::MapDecoder>,
}

impl<D: SpecDecoder> StructDecoderHelper<D> {
    /// The field names of the target type.
    pub closed spec fn fields(&self) -> &'static [&'static str] {
        self.fields
    }

    /// Whether the map has not been ended yet.
    pub closed spec fn is_open(&self) -> bool {
        self.map is Some
    }

    /// The map handle, while it is open.
    pub closed spec fn map(&self) -> D::MapDecoder {
        self.map->0
    }

    /// The map handle, or `None` once the map is ended.
    pub closed spec fn map_handle(&self) -> Option<D::MapDecoder> {
        self.map
    }

    /// Decodes `any` as a struct named `name` with the given fields: the
    /// decoder must find a map.
    pub fn decode_struct_helper(
        decoder: &mut D,
        any: D::AnyDecoder,
        name: &'static str,
        fields: &'static [&'static str],
    ) -> (r: Result<Self, Error>)
        ensures
            exists|v: Result<SimpleDecoderView<D>, Error>|
                #[trigger] old(decoder).decode_state(any, DecodeHint::Struct { name, fields }, v, *final(decoder))
                    && old(decoder).decode_spec(any, DecodeHint::Struct { name, fields }, v) && match v {
                    Err(e) => r is Err && r->Err_0 == e,
                    Ok(SimpleDecoderView::Mapping(m)) => r matches Ok(h) && h.is_open() && h.fields() == fields
                        && h.map() == m,
                    Ok(other) => r is Err && r->Err_0 == Error::TypeMismatch(
                        TypeMismatch { found: view_kind(other), expected: "map" },
                    ),
                },
    {
        let ghost d0 = *decoder;
        let view = decoder.decode(any, DecodeHint::Struct { name, fields });
        let ghost v = view;
        assert(d0.decode_state(any, DecodeHint::Struct { name, fields }, v, *decoder));
        let view = match view {
            Ok(view) => view,
            Err(e) => return Err(e),
        };
        let map = match view.try_into_map() {
            Ok(map) => map,
            Err(e) => return Err(e),
        };
        Ok(StructDecoderHelper { fields, map: Some(map) })
    }

    /// The next field of the struct that the target type knows: its index in
    /// `fields` and the handle of its value (`struct_next`).  Entries whose
    /// key is an index past the fields, or a name that is not among them, are
    /// skipped; a key that is neither an index nor a name is a type mismatch.
    /// When no entry is left the map is ended and the answer is `None`.
    pub fn next(&mut self, decoder: &mut D) -> (r: Result<Option<(usize, D::AnyDecoder)>, Error>)
        ensures
            final(self).fields() == old(self).fields(),
            !old(self).is_open() ==> r == Ok::<Option<(usize, D::AnyDecoder)>, Error>(None)
                && !final(self).is_open() && *final(decoder) == *old(decoder),
            old(self).is_open() ==> struct_next(
                old(self).fields()@,
                *old(decoder),
                old(self).map(),
                r,
                final(self).map_handle(),
                *final(decoder),
            ),
            r matches Ok(Some((n, _))) ==> n < old(self).fields()@.len() && final(self).is_open(),
            r matches Ok(None) ==> !final(self).is_open(),
    {
        if self.map.is_none() {
            return Ok(None);
        }
        let ghost d0 = *decoder;
        let ghost map0 = self.map->0;
        let ghost fields = self.fields@;
        loop
            invariant
                self.fields == old(self).fields,
                fields == old(self).fields@,
                self.map is Some,
                old(self).map is Some,
                d0 == *old(decoder),
                map0 == old(self).map->0,
                forall|r: Result<Option<(usize, D::AnyDecoder)>, Error>, mo: Option<D::MapDecoder>, d: D|
                    #[trigger] struct_next(fields, *decoder, self.map->0, r, mo, d) ==> struct_next(fields, d0, map0, r, mo, d),
            decreases D::map_left(self.map->0),
        {
            let ghost dc = *decoder;
            let ghost mc = self.map->0;
            let next = match &mut self.map {
                Some(map) => decoder.decode_map_next(map),
                None => return Ok(None),
            };
            let ghost d1 = *decoder;
            let ghost map1 = self.map->0;
            assert(dc.map_next_state(mc, map1, next, d1));
            let key = match next {
                Err(e) => {
                    assert(struct_next(fields, dc, mc, Err(e), self.map, d1));
                    return Err(e);
                },
                Ok(Some(key)) => key,
                Ok(None) => {
                    let map = self.map.take().unwrap();
                    let end = decoder.decode_map_end(map);
                    let r = match end {
                        Ok(()) => Ok(None),
                        Err(e) => Err(e),
                    };
                    assert(struct_next(fields, dc, mc, r, self.map, *decoder));
                    return r;
                },
            };
            let step = decoder.decode_entry_key(key);
            let ghost d2 = *decoder;
            assert(reached(d2) && d1.entry_key_state(key, d2));
            let (key, value) = match step {
                Ok(x) => x,
                Err(e) => {
                    assert(struct_next(fields, dc, mc, Err(e), self.map, d2));
                    return Err(e);
                },
            };
            let id = decoder.decode(key, DecodeHint::Identifier);
            let ghost d3 = *decoder;
            let ghost w = id;
            assert(picked(w, d3) && d2.decode_state(key, DecodeHint::Identifier, w, d3));
            let view = match id {
                Ok(view) => view,
                Err(e) => {
                    assert(struct_next(fields, dc, mc, Err(e), self.map, d3));
                    return Err(e);
                },
            };
            let found = field_index(view, self.fields);
            match found {
                Err(e) => {
                    assert(struct_next(fields, dc, mc, Err(e), self.map, d3));
                    return Err(e);
                },
                Ok(Some(n)) => {
                    let value = decoder.decode_entry_value(value);
                    let r = match value {
                        Ok(a) => Ok(Some((n, a))),
                        Err(e) => Err(e),
                    };
                    assert(struct_next(fields, dc, mc, r, self.map, *decoder));
                    return r;
                },
                Ok(None) => {
                    let step = decoder.decode_entry_value(value);
                    let ghost d4 = *decoder;
                    assert(reached(d4) && d3.entry_value_state(value, d4));
                    let va = match step {
                        Ok(va) => va,
                        Err(e) => {
                            assert(struct_next(fields, dc, mc, Err(e), self.map, d4));
                            return Err(e);
                        },
                    };
                    let skipped = ignore(decoder, va);
                    let ghost d5 = *decoder;
                    assert(picked(skipped, d5) && skips(d4, va, skipped, d5));
                    if let Err(e) = skipped {
                        assert(struct_next(fields, dc, mc, Err(e), self.map, d5));
                        return Err(e);
                    }
                    assert forall|r: Result<Option<(usize, D::AnyDecoder)>, Error>, mo: Option<D::MapDecoder>, d: D|
                        #[trigger] struct_next(fields, *decoder, self.map->0, r, mo, d) implies struct_next(fields, d0, map0, r, mo, d) by {
                        assert(struct_next(fields, dc, mc, r, mo, d));
                    }
                },
            }
        }
    }
}

} // verus!
