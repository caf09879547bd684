use vstd::prelude::*;

verus! {

broadcast use vstd::string::group_string_axioms;

/// The full extern name under which the host looks up the extension's one
/// entry point.
pub open spec fn raw_call_extern_name() -> Seq<char> {
    "github_com_vo_lang_gix_RawCall"@
}

/// The message that every call receives where git cannot run (in the
/// browser sandbox).
pub open spec fn unavailable_message() -> Seq<char> {
    "git operations are not available in the browser sandbox \u{2014} use Vibe Studio desktop"@
}

/// The slots, in order, of the externs that the stub entry point serves:
/// those named by the entry point's full extern name, each slot being the
/// position in the list, taken as a 32-bit number.
pub open spec fn stub_slots(names: Seq<String>) -> Seq<u32>
    decreases names.len(),
{
    if names.len() == 0 {
        Seq::empty()
    } else {
        let rest = stub_slots(names.drop_last());
        if names.last()@ == raw_call_extern_name() {
            rest.push((names.len() - 1) as u32)
        } else {
            rest
        }
    }
}

/// Of the externs that the host declares, by name in declaration order,
/// the slots that are to be served by the stub entry point
/// ([`stub_raw_call`]): every extern named `github_com_vo_lang_gix_RawCall`.
pub fn register_externs(extern_names: &Vec<String>) -> (slots: Vec<u32>)
    ensures
        slots@ == stub_slots(extern_names@),
        extern_names.len() <= u32::MAX + 1 ==> {
            &&& forall|i: int|
                0 <= i < extern_names.len() ==> ((#[trigger] extern_names@[i])@
                    == "github_com_vo_lang_gix_RawCall"@ <==> slots@.contains(i as u32))
            &&& forall|k: int| 0 <= k < slots.len() ==> #[trigger] slots@[k] < extern_names.len()
            &&& forall|a: int, b: int| 0 <= a < b < slots.len() ==> #[trigger] slots@[a] < #[trigger] slots@[b]
        },
{
    let target = String::from_str("github_com_vo_lang_gix_RawCall");
    let mut slots: Vec<u32> = Vec::new();
    let mut i: usize = 0;
    while i < extern_names.len()
        invariant
            i <= extern_names.len(),
            target@ == raw_call_extern_name(),
            slots@ == stub_slots(extern_names@.take(i as int)),
        decreases extern_names.len() - i,
    {
        proof {
            assert(extern_names@.take(i + 1).drop_last() =~= extern_names@.take(i as int));
        }
        if extern_names[i] == target {
            slots.push(i as u32);
        }
        i = i + 1;
    }
    proof {
        assert(extern_names@.take(extern_names@.len() as int) =~= extern_names@);
        if extern_names.len() <= u32::MAX + 1 {
            law_stub_slots_exact(extern_names@);
        }
    }
    slots
}

/// The entry point that stands in for the real one where git cannot run:
/// whatever the operation, it fails with [`unavailable_message`].
pub fn stub_raw_call(_op: &str, _input: &str) -> (r: Result<Vec<u8>, String>)
    ensures
        r matches Err(m) && m@ == unavailable_message(),
{
    Err(
        String::from_str(
            "git operations are not available in the browser sandbox \u{2014} use Vibe Studio desktop",
        ),
    )
}

/// The stub serves a slot exactly when the extern declared at that position
/// is named `github_com_vo_lang_gix_RawCall` (the first position
/// included), and lists those slots in increasing order, each a position
/// of the list.
pub proof fn law_stub_slots_exact(names: Seq<String>)
    requires
        names.len() <= u32::MAX + 1,
    ensures
        forall|i: int|
            0 <= i < names.len() ==> ((#[trigger] names[i])@ == "github_com_vo_lang_gix_RawCall"@
                <==> stub_slots(names).contains(i as u32)),
        forall|k: int| 0 <= k < stub_slots(names).len() ==> #[trigger] stub_slots(names)[k] < names.len(),
        forall|a: int, b: int|
            0 <= a < b < stub_slots(names).len() ==> #[trigger] stub_slots(names)[a]
                < #[trigger] stub_slots(names)[b],
    decreases names.len(),
{
    if names.len() > 0 {
        let rest = names.drop_last();
        law_stub_slots_exact(rest);
        let last = (names.len() - 1) as int;
        assert forall|i: int|
            0 <= i < names.len() implies ((#[trigger] names[i])@ == "github_com_vo_lang_gix_RawCall"@
                <==> stub_slots(names).contains(i as u32)) by {
            if i < last {
                assert(names[i] == rest[i]);
                if stub_slots(names).contains(i as u32) && !stub_slots(rest).contains(i as u32) {
                    let k = choose|k: int| 0 <= k < stub_slots(names).len() && stub_slots(names)[k] == i as u32;
                    assert(stub_slots(names)[k] == last as u32);
                }
                if stub_slots(rest).contains(i as u32) {
                    let k = choose|k: int| 0 <= k < stub_slots(rest).len() && stub_slots(rest)[k] == i as u32;
                    assert(stub_slots(names)[k] == i as u32);
                }
            } else {
                if names[i]@ == "github_com_vo_lang_gix_RawCall"@ {
                    assert(stub_slots(names)[stub_slots(names).len() - 1] == i as u32);
                } else {
                    if stub_slots(names).contains(i as u32) {
                        let k = choose|k: int| 0 <= k < stub_slots(names).len() && stub_slots(names)[k] == i as u32;
                        assert(stub_slots(rest)[k] < rest.len());
                    }
                }
            }
        }
    }
}

} // verus!
