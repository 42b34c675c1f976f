//! The export name resolver: from the method kind, the resolved external
//! name and the composite flag it derives the two textual identifiers of the
//! same logical entry point — the on-device export symbol and the sanitized
//! form used by host-side testing builds — and rejects names in the reserved
//! internal namespace.

use crate::diag::{spec_reserved_msg, reserved_msg, DiagView, Diagnostic, Location};
use crate::method::MethodType;
use crate::text::{spec_starts_with, push_char, starts_with};
use vstd::prelude::*;

verus! {

/// The marker text that opens the namespace reserved for framework-internal
/// entry points; user code may not export a name starting with it.
pub open spec fn spec_reserved_marker() -> Seq<char> {
    "<ic-cdk internal>"@
}

/// Whether a resolved external name falls in the reserved namespace.
pub open spec fn spec_is_reserved(name: Seq<char>) -> bool {
    spec_starts_with(name, spec_reserved_marker())
}

pub fn is_reserved(name: &str) -> (r: bool)
    ensures
        r == spec_is_reserved(name@),
{
    starts_with(name, "<ic-cdk internal>")
}

/// The on-device export symbol: a space-joined tag. Lifecycle kinds use the
/// fixed form with no name; composite queries use their own tag; every other
/// callable kind joins its kind name and the resolved external name.
pub open spec fn spec_device_symbol(method: MethodType, name: Seq<char>, composite: bool) -> Seq<
    char,
> {
    if method.spec_is_lifecycle() {
        "canister_"@ + method.spec_name()
    } else if method == MethodType::Query && composite {
        "canister_composite_query "@ + name
    } else {
        "canister_"@ + method.spec_name() + " "@ + name
    }
}

/// How one character of the device symbol appears in the host-compatible
/// symbol: spaces become dots, and characters not valid in a plain export
/// identifier (hyphens and angle brackets) become underscores.
pub open spec fn spec_host_char(c: char) -> char {
    if c == ' ' {
        '.'
    } else if c == '-' || c == '<' || c == '>' {
        '_'
    } else {
        c
    }
}

/// The host-compatible symbol derived from a device symbol.
pub open spec fn spec_host_symbol(s: Seq<char>) -> Seq<char> {
    s.map_values(|c: char| spec_host_char(c))
}

fn host_char(c: char) -> (r: char)
    ensures
        r == spec_host_char(c),
{
    if c == ' ' {
        '.'
    } else if c == '-' || c == '<' || c == '>' {
        '_'
    } else {
        c
    }
}

/// Rewrites a device symbol into its host-compatible form, character by
/// character.
pub fn host_symbol(s: &str) -> (r: String)
    ensures
        r@ == spec_host_symbol(s@),
{
    let n = s.unicode_len();
    let mut out = String::new();
    let mut i: usize = 0;
    while i < n
        invariant
            i <= n,
            n == s@.len(),
            out@ == spec_host_symbol(s@.take(i as int)),
        decreases n - i,
    {
        let c = s.get_char(i);
        push_char(&mut out, host_char(c));
        proof {
            assert(spec_host_symbol(s@.take(i + 1)) =~= spec_host_symbol(s@.take(i as int)).push(
                spec_host_char(s@[i as int]),
            ));
        }
        i += 1;
    }
    proof {
        assert(s@.take(n as int) =~= s@);
    }
    out
}

/// Recovers, from a device symbol, which kind of entry point produced it
/// and whether it was a composite query. Every symbol starts with the nine
/// characters of `canister_`; the characters after them discriminate the
/// kinds.
spec fn spec_symbol_form(s: Seq<char>) -> (MethodType, bool) {
    if s[9] == 'u' {
        (MethodType::Update, false)
    } else if s[9] == 'q' {
        (MethodType::Query, false)
    } else if s[9] == 'c' {
        (MethodType::Query, true)
    } else if s[9] == 'h' {
        (MethodType::Heartbeat, false)
    } else if s[9] == 'o' {
        (MethodType::OnLowWasmMemory, false)
    } else if s[9] == 'p' {
        if s[10] == 'r' {
            (MethodType::PreUpgrade, false)
        } else {
            (MethodType::PostUpgrade, false)
        }
    } else {
        if s[11] == 'i' {
            (MethodType::Init, false)
        } else {
            (MethodType::InspectMessage, false)
        }
    }
}

proof fn lemma_symbol_form(m: MethodType, n: Seq<char>, c: bool)
    ensures
        spec_symbol_form(spec_device_symbol(m, n, c)).0 == m,
        m == MethodType::Query ==> spec_symbol_form(spec_device_symbol(m, n, c)).1 == c,
{
    reveal_strlit("canister_");
    reveal_strlit("canister_composite_query ");
    reveal_strlit(" ");
    reveal_strlit("init");
    reveal_strlit("pre_upgrade");
    reveal_strlit("post_upgrade");
    reveal_strlit("update");
    reveal_strlit("query");
    reveal_strlit("heartbeat");
    reveal_strlit("inspect_message");
    reveal_strlit("on_low_wasm_memory");
    let s = spec_device_symbol(m, n, c);
    match m {
        MethodType::Init => {
            assert(s[9] == 'i' && s[10] == 'n' && s[11] == 'i');
        },
        MethodType::PreUpgrade => {
            assert(s[9] == 'p' && s[10] == 'r');
        },
        MethodType::PostUpgrade => {
            assert(s[9] == 'p' && s[10] == 'o');
        },
        MethodType::Update => {
            assert(s[9] == 'u');
        },
        MethodType::Query => {
            if c {
                assert(s[9] == 'c');
            } else {
                assert(s[9] == 'q');
            }
        },
        MethodType::Heartbeat => {
            assert(s[9] == 'h');
        },
        MethodType::InspectMessage => {
            assert(s[9] == 'i' && s[10] == 'n' && s[11] == 's');
        },
        MethodType::OnLowWasmMemory => {
            assert(s[9] == 'o');
        },
    }
}

proof fn lemma_cancel_prefix(p: Seq<char>, n1: Seq<char>, n2: Seq<char>)
    requires
        p + n1 == p + n2,
    ensures
        n1 == n2,
{
    assert((p + n1).len() == p.len() + n1.len());
    assert((p + n2).len() == p.len() + n2.len());
    assert(n1.len() == n2.len());
    assert forall|i: int| 0 <= i < n1.len() implies n1[i] == n2[i] by {
        assert((p + n1)[p.len() + i] == n1[i]);
        assert((p + n2)[p.len() + i] == n2[i]);
    }
    assert(n1 =~= n2);
}

/// Injectivity of the device-symbol mapping: distinct entry points never
/// collide. Equal symbols force the same method kind; for callable kinds
/// the same external name; and for queries the same composite flag.
pub proof fn lemma_device_symbol_injective(
    m1: MethodType,
    n1: Seq<char>,
    c1: bool,
    m2: MethodType,
    n2: Seq<char>,
    c2: bool,
)
    requires
        spec_device_symbol(m1, n1, c1) == spec_device_symbol(m2, n2, c2),
    ensures
        m1 == m2,
        !m1.spec_is_lifecycle() ==> n1 == n2,
        m1 == MethodType::Query ==> c1 == c2,
{
    lemma_symbol_form(m1, n1, c1);
    lemma_symbol_form(m2, n2, c2);
    if !m1.spec_is_lifecycle() {
        if m1 == MethodType::Query && c1 {
            lemma_cancel_prefix("canister_composite_query "@, n1, n2);
        } else {
            lemma_cancel_prefix("canister_"@ + m1.spec_name() + " "@, n1, n2);
        }
    }
}

/// The pair of export symbols derived for one entry point. Both are always
/// produced together, though only one is active in a given build target.
pub struct ExportNames {
    /// The symbol the on-device build exports.
    pub device: String,
    /// The sanitized symbol host-side testing builds export.
    pub host: String,
}

/// The mathematical model of the symbol pair.
pub struct NamesView {
    pub device: Seq<char>,
    pub host: Seq<char>,
}

impl View for ExportNames {
    type V = NamesView;

    open spec fn view(&self) -> NamesView {
        NamesView { device: self.device@, host: self.host@ }
    }
}

/// Derives both export symbols, rejecting a reserved name on any
/// non-lifecycle kind (lifecycle kinds ignore the name entirely).
pub fn export_names(method: MethodType, name: &str, composite: bool) -> (r: Result<
    ExportNames,
    Diagnostic,
>)
    ensures
        match r {
            Ok(p) => {
                &&& !(!method.spec_is_lifecycle() && spec_is_reserved(name@))
                &&& p@.device == spec_device_symbol(method, name@, composite)
                &&& p@.host == spec_host_symbol(spec_device_symbol(method, name@, composite))
            },
            Err(d) => {
                &&& !method.spec_is_lifecycle()
                &&& spec_is_reserved(name@)
                &&& d@ == (DiagView {
                    location: Location::CallSite,
                    message: spec_reserved_msg(),
                })
            },
        },
{
    if !method.is_lifecycle() && is_reserved(name) {
        return Err(Diagnostic { location: Location::CallSite, message: reserved_msg() });
    }
    let device: String = if method.is_lifecycle() {
        let mut s = String::from_str("canister_");
        s.append(method.name());
        s
    } else if method == MethodType::Query && composite {
        let mut s = String::from_str("canister_composite_query ");
        s.append(name);
        s
    } else {
        let mut s = String::from_str("canister_");
        s.append(method.name());
        s.append(" ");
        s.append(name);
        s
    };
    let host = host_symbol(device.as_str());
    Ok(ExportNames { device, host })
}

} // verus!
