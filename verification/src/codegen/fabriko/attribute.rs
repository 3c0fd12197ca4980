//! The factory functions exposed by a generated wrapper of `Fabriko`.
use vstd::prelude::*;

verus! {

/// One factory exposed by the wrapper: the factory's path and the name of the
/// function that creates with it.
pub struct FabrikoDeriveAttribute {
    /// The source text of the factory's path.
    pub factory: String,
    /// The name of the exposed function.
    pub function: String,
}

/// The wrapper method `<function>` that creates with the factory `<factory>`
/// inside the context `<context>`.
pub open spec fn factory_fn_text(attribute: FabrikoDeriveAttribute, context: Seq<char>) -> Seq<char> {
    "pub fn "@ + attribute.function@ + " < FF : :: fabriko :: Factory < "@ + context
        + " > , CB : FnOnce ("@ + attribute.factory@ + ") -> FF > (& mut self , callback : CB ,) -> < FF as :: fabriko :: Factory < "@
        + context + " >> :: Output { self . 0 . factory (callback) }"@
}

impl FabrikoDeriveAttribute {
    pub fn derive_factory_fn_for_wrapper(&self, context_ident: &String) -> (out: String)
        ensures
            out@ == factory_fn_text(*self, context_ident@),
    {
        let mut out = String::new();
        out.append("pub fn ");
        out.append(self.function.as_str());
        out.append(" < FF : :: fabriko :: Factory < ");
        out.append(context_ident.as_str());
        out.append(" > , CB : FnOnce (");
        out.append(self.factory.as_str());
        out.append(") -> FF > (& mut self , callback : CB ,) -> < FF as :: fabriko :: Factory < ");
        out.append(context_ident.as_str());
        out.append(" >> :: Output { self . 0 . factory (callback) }");
        assert(out@ =~= factory_fn_text(*self, context_ident@));
        out
    }
}

} // verus!
