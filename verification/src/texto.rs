//! Substring search over text, and views of string lists. The list filter's
//! free-text search matches a substring of the first or last name.

use vstd::prelude::*;

verus! {

/// `patron` occurs contiguously somewhere inside `texto`.
pub open spec fn es_subcadena(patron: Seq<char>, texto: Seq<char>) -> bool {
    exists|k: int|
        0 <= k && k + patron.len() <= texto.len() && #[trigger] texto.subrange(
            k,
            k + patron.len(),
        ) == patron
}

/// The mathematical values of a list of strings, in order.
pub open spec fn vistas(s: Seq<String>) -> Seq<Seq<char>> {
    s.map_values(|x: String| x@)
}

/// Whether `texto` holds `patron` starting at position `desde`.
fn coincide_en(patron: &str, texto: &str, desde: usize, largo_patron: usize) -> (r: bool)
    requires
        largo_patron == patron@.len(),
        desde + largo_patron <= texto@.len(),
        texto@.len() <= usize::MAX,
    ensures
        r <==> texto@.subrange(desde as int, desde + patron@.len()) == patron@,
{
    let mut i: usize = 0;
    while i < largo_patron
        invariant
            largo_patron == patron@.len(),
            desde + largo_patron <= texto@.len(),
            texto@.len() <= usize::MAX,
            0 <= i <= largo_patron,
            forall|j: int| 0 <= j < i ==> texto@[desde + j] == patron@[j],
        decreases largo_patron - i,
    {
        if texto.get_char(desde + i) != patron.get_char(i) {
            assert(texto@.subrange(desde as int, desde + patron@.len())[i as int] != patron@[i as int]);
            return false;
        }
        i = i + 1;
    }
    assert(texto@.subrange(desde as int, desde + patron@.len()) =~= patron@);
    true
}

/// Substring search: whether `patron` occurs anywhere inside `texto`.
pub fn contiene(texto: &str, patron: &str) -> (r: bool)
    ensures
        r == es_subcadena(patron@, texto@),
{
    let largo_texto = texto.unicode_len();
    let largo_patron = patron.unicode_len();
    if largo_patron > largo_texto {
        return false;
    }
    if largo_patron == 0 {
        assert(es_subcadena(patron@, texto@)) by {
            assert(texto@.subrange(0, 0 + patron@.len() as int) =~= patron@);
        }
        return true;
    }
    let limite = largo_texto - largo_patron;
    let mut k: usize = 0;
    while k <= limite
        invariant
            largo_texto == texto@.len(),
            largo_patron == patron@.len(),
            1 <= largo_patron <= largo_texto,
            limite == largo_texto - largo_patron,
            0 <= k <= limite + 1,
            forall|j: int|
                0 <= j < k ==> #[trigger] texto@.subrange(j, j + patron@.len()) != patron@,
        decreases limite + 1 - k,
    {
        if coincide_en(patron, texto, k, largo_patron) {
            return true;
        }
        k = k + 1;
    }
    false
}

} // verus!
