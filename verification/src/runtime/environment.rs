use vstd::prelude::*;

verus! {

broadcast use vstd::std_specs::vec::group_vec_axioms;
// ---------------------------------------------------------------------------
// Runtime values
// ---------------------------------------------------------------------------
/// A value produced by evaluation. Values are immutable once produced:
/// reassignment replaces the binding, never the value in place.
#[derive(Debug, PartialEq)]
pub enum Value {
    Int(i64),
    /// The numeric text of a float literal; the machine float it denotes
    /// is produced outside the verified core.
    Float(String),
    Str(String),
    Bool(bool),
    Unit,
    StructInstance(StructInstance),
}

/// An instance of a declared struct: its name and its fields in order.
#[derive(Debug, PartialEq)]
pub struct StructInstance {
    pub name: String,
    pub fields: Vec<(String, Value)>,
}

/// The mathematical image of a [`Value`].
pub enum ValueView {
    Int(i64),
    Float(Seq<char>),
    Str(Seq<char>),
    Bool(bool),
    Unit,
    StructInstance(StructInstanceView),
}

pub struct StructInstanceView {
    pub name: Seq<char>,
    pub fields: Seq<(Seq<char>, ValueView)>,
}

pub open spec fn value_view(v: Value) -> ValueView
    decreases v,
{
    match v {
        Value::Int(i) => ValueView::Int(i),
        Value::Float(t) => ValueView::Float(t@),
        Value::Str(t) => ValueView::Str(t@),
        Value::Bool(b) => ValueView::Bool(b),
        Value::Unit => ValueView::Unit,
        Value::StructInstance(si) => ValueView::StructInstance(struct_instance_view(si)),
    }
}

pub open spec fn struct_instance_view(si: StructInstance) -> StructInstanceView
    decreases si,
{
    StructInstanceView { name: si.name@, fields: value_fields_view(si.fields@) }
}

pub open spec fn value_fields_view(fs: Seq<(String, Value)>) -> Seq<(Seq<char>, ValueView)>
    decreases fs,
{
    if fs.len() == 0 {
        Seq::empty()
    } else {
        seq![(fs[0].0@, value_view(fs[0].1))] + value_fields_view(fs.subrange(1, fs.len() as int))
    }
}

impl View for Value {
    type V = ValueView;

    open spec fn view(&self) -> ValueView {
        value_view(*self)
    }
}

impl View for StructInstance {
    type V = StructInstanceView;

    open spec fn view(&self) -> StructInstanceView {
        struct_instance_view(*self)
    }
}

fn clone_value_fields(fs: &Vec<(String, Value)>) -> (r: Vec<(String, Value)>)
    ensures
        value_fields_view(r@) == value_fields_view(fs@),
    decreases fs,
{
    let mut out: Vec<(String, Value)> = Vec::new();
    let n = fs.len();
    proof {
        assert(fs@.subrange(n as int, n as int) =~= Seq::<(String, Value)>::empty());
    }
    let mut i: usize = n;
    while i > 0
        invariant
            i <= n,
            n == fs.len(),
            value_fields_view(out@) == value_fields_view(fs@.subrange(i as int, n as int)),
        decreases i,
    {
        i = i - 1;
        let name = fs[i].0.clone();
        let value = fs[i].1.clone();
        let ghost out0 = out@;
        out.insert(0, (name, value));
        proof {
            let sub = fs@.subrange(i as int, n as int);
            assert(sub[0] == fs@[i as int]);
            assert(sub.subrange(1, sub.len() as int) =~= fs@.subrange(i as int + 1, n as int));
            assert(out@.subrange(1, out@.len() as int) =~= out0);
            assert(out@[0].0 == fs@[i as int].0);
            assert(value_fields_view(out@) == value_fields_view(sub));
        }
    }
    proof {
        assert(fs@.subrange(0, n as int) =~= fs@);
    }
    out
}

impl Clone for Value {
    /// A clone of a value denotes the same value.
    fn clone(&self) -> (r: Value)
        ensures
            r@ == self@,
        decreases self,
    {
        match self {
            Value::Int(i) => Value::Int(*i),
            Value::Float(t) => Value::Float(t.clone()),
            Value::Str(t) => Value::Str(t.clone()),
            Value::Bool(b) => Value::Bool(*b),
            Value::Unit => Value::Unit,
            Value::StructInstance(si) => Value::StructInstance(
                StructInstance { name: si.name.clone(), fields: clone_value_fields(&si.fields) },
            ),
        }
    }
}

impl Clone for StructInstance {
    /// A clone of a struct instance denotes the same instance.
    fn clone(&self) -> (r: StructInstance)
        ensures
            r@ == self@,
    {
        StructInstance { name: self.name.clone(), fields: clone_value_fields(&self.fields) }
    }
}

// ---------------------------------------------------------------------------
// Environment errors
// ---------------------------------------------------------------------------
/// Why a name could not be resolved or bound.
#[derive(Debug, PartialEq)]
pub enum EnvironmentError {
    /// No scope binds the name.
    VariableNotFound(String),
    /// In the vocabulary for completeness: declaring a name twice in one
    /// scope silently replaces the binding, so the present operations
    /// never raise this.
    VariableAlreadyDeclared(String),
}

/// The mathematical image of an [`EnvironmentError`].
pub enum EnvironmentErrorView {
    VariableNotFound(Seq<char>),
    VariableAlreadyDeclared(Seq<char>),
}

impl View for EnvironmentError {
    type V = EnvironmentErrorView;

    open spec fn view(&self) -> EnvironmentErrorView {
        match self {
            EnvironmentError::VariableNotFound(n) => EnvironmentErrorView::VariableNotFound(n@),
            EnvironmentError::VariableAlreadyDeclared(n) => {
                EnvironmentErrorView::VariableAlreadyDeclared(n@)
            },
        }
    }
}

// ---------------------------------------------------------------------------
// The environment: a stack of lexical scopes
// ---------------------------------------------------------------------------
/// One scope, as the mapping it denotes: of the entries sharing a name,
/// the latest bound wins.
pub open spec fn scope_view(sc: Seq<(String, Value)>) -> Map<Seq<char>, ValueView>
    decreases sc,
{
    if sc.len() == 0 {
        Map::empty()
    } else {
        scope_view(sc.subrange(0, sc.len() - 1)).insert(
            sc[sc.len() - 1].0@,
            value_view(sc[sc.len() - 1].1),
        )
    }
}

/// Looks a name up through a stack of scopes, innermost (last) first.
pub open spec fn env_lookup(
    scopes: Seq<Map<Seq<char>, ValueView>>,
    name: Seq<char>,
) -> Option<ValueView>
    decreases scopes.len(),
{
    if scopes.len() == 0 {
        None
    } else if scopes[scopes.len() - 1].contains_key(name) {
        Some(scopes[scopes.len() - 1][name])
    } else {
        env_lookup(scopes.subrange(0, scopes.len() - 1), name)
    }
}

/// The runtime environment: an ordered stack of lexical scopes, each
/// mapping names to values. The stack always holds at least one scope —
/// the top-level scope, which is never popped. Shadowing: an inner scope's
/// binding hides an outer one's; looking a name up searches innermost to
/// outermost.
#[derive(Debug)]
pub struct Environment {
    variables: Vec<Vec<(String, Value)>>,
}

impl View for Environment {
    type V = Seq<Map<Seq<char>, ValueView>>;

    closed spec fn view(&self) -> Seq<Map<Seq<char>, ValueView>> {
        Seq::new(self.variables@.len(), |i: int| scope_view(self.variables@[i]@))
    }
}

fn str_equal(a: &str, b: &str) -> (r: bool)
    ensures
        r == (a@ == b@),
{
    let na = a.unicode_len();
    let nb = b.unicode_len();
    if na != nb {
        return false;
    }
    let mut i: usize = 0;
    while i < na
        invariant
            i <= na,
            na == a@.len(),
            na == b@.len(),
            forall|j: int| 0 <= j < i ==> a@[j] == b@[j],
        decreases na - i,
    {
        if a.get_char(i) != b.get_char(i) {
            return false;
        }
        i = i + 1;
    }
    proof {
        assert(a@ =~= b@);
    }
    true
}

impl Environment {
    /// The stack holds at least the top-level scope.
    pub open spec fn wf(self) -> bool {
        self@.len() >= 1
    }

    /// Creates an environment with the single top-level scope, empty.
    pub fn new() -> (r: Environment)
        ensures
            r.wf(),
            r@ =~= seq![Map::<Seq<char>, ValueView>::empty()],
    {
        let mut variables: Vec<Vec<(String, Value)>> = Vec::new();
        variables.push(Vec::new());
        let r = Environment { variables };
        proof {
            assert(scope_view(r.variables@[0]@) =~= Map::<Seq<char>, ValueView>::empty());
            assert(r@ =~= seq![Map::<Seq<char>, ValueView>::empty()]);
        }
        r
    }

    /// The number of scopes on the stack.
    pub fn scope_count(&self) -> (n: usize)
        ensures
            n == self@.len(),
    {
        self.variables.len()
    }

    /// Pushes a fresh, empty innermost scope.
    pub fn push_scope(&mut self)
        ensures
            final(self)@ =~= old(self)@.push(Map::<Seq<char>, ValueView>::empty()),
    {
        self.variables.push(Vec::new());
        proof {
            assert(self@ =~= old(self)@.push(Map::<Seq<char>, ValueView>::empty()));
        }
    }

    /// Pops the innermost scope — unless it is the only one: the top-level
    /// scope can never be popped, and the attempt leaves the stack as it
    /// stands.
    pub fn pop_scope(&mut self)
        ensures
            old(self)@.len() > 1 ==> final(self)@ =~= old(self)@.subrange(
                0,
                old(self)@.len() - 1,
            ),
            old(self)@.len() <= 1 ==> final(self)@ =~= old(self)@,
    {
        if self.variables.len() > 1 {
            self.variables.pop();
            proof {
                assert(self@ =~= old(self)@.subrange(0, old(self)@.len() - 1));
            }
        }
    }

    /// Binds `name` to `value` in the innermost scope. A same-named binding
    /// in an outer scope is shadowed; one in the same scope is silently
    /// replaced. Never fails.
    pub fn declare_variable(&mut self, name: String, value: Value) -> (r: Result<
        (),
        EnvironmentError,
    >)
        requires
            old(self).wf(),
        ensures
            r is Ok,
            final(self).wf(),
            final(self)@ =~= old(self)@.update(
                old(self)@.len() - 1,
                old(self)@[old(self)@.len() - 1].insert(name@, value@),
            ),
    {
        let ghost oldscopes = self.variables@;
        let mut top = match self.variables.pop() {
            Some(t) => t,
            None => Vec::new(),
        };
        let ghost top0 = top@;
        top.push((name, value));
        proof {
            assert(top@.subrange(0, top@.len() - 1) =~= top0);
            assert(scope_view(top@) == scope_view(top0).insert(name@, value_view(value)));
        }
        self.variables.push(top);
        proof {
            assert(self@ =~= old(self)@.update(
                old(self)@.len() - 1,
                old(self)@[old(self)@.len() - 1].insert(name@, value@),
            ));
        }
        Ok(())
    }

    /// Sets `name` to `value`. This writes into the innermost scope exactly
    /// as [`Environment::declare_variable`] does — it does not walk outward
    /// to an enclosing binding. Never fails.
    pub fn set_variable(&mut self, name: String, value: Value) -> (r: Result<
        (),
        EnvironmentError,
    >)
        requires
            old(self).wf(),
        ensures
            r is Ok,
            final(self).wf(),
            final(self)@ =~= old(self)@.update(
                old(self)@.len() - 1,
                old(self)@[old(self)@.len() - 1].insert(name@, value@),
            ),
    {
        self.declare_variable(name, value)
    }

    /// Looks `name` up, searching scopes from innermost to outermost, and
    /// returns the first binding found.
    pub fn get_variable(&self, name: &str) -> (r: Option<&Value>)
        ensures
            match r {
                Some(v) => env_lookup(self@, name@) == Some(v@),
                None => env_lookup(self@, name@) is None,
            },
    {
        let n = self.variables.len();
        proof {
            assert(self@.subrange(0, n as int) =~= self@);
        }
        let mut si = n;
        while si > 0
            invariant
                si <= n,
                n == self.variables.len(),
                env_lookup(self@, name@) == env_lookup(self@.subrange(0, si as int), name@),
            decreases si,
    {
            si = si - 1;
            let scope = &self.variables[si];
            let m = scope.len();
            proof {
                assert(scope@.subrange(0, m as int) =~= scope@);
            }
            let mut ei = m;
            while ei > 0
                invariant
                    ei <= m,
                    m == scope.len(),
                    si < n,
                    n == self.variables.len(),
                    scope@ == self.variables@[si as int]@,
                    env_lookup(self@, name@) == env_lookup(
                        self@.subrange(0, si as int + 1),
                        name@,
                    ),
                    scope_view(scope@).contains_key(name@) == scope_view(
                        scope@.subrange(0, ei as int),
                    ).contains_key(name@),
                    scope_view(scope@).contains_key(name@) ==> scope_view(scope@)[name@]
                        == scope_view(scope@.subrange(0, ei as int))[name@],
                decreases ei,
            {
                ei = ei - 1;
                let ghost pre = scope@.subrange(0, ei + 1);
                proof {
                    assert(pre.subrange(0, pre.len() - 1) =~= scope@.subrange(0, ei as int));
                    assert(pre[pre.len() - 1] == scope@[ei as int]);
                }
                if str_equal(scope[ei].0.as_str(), name) {
                    proof {
                        assert(scope_view(pre).contains_key(name@));
                        assert(scope_view(pre)[name@] == value_view(scope@[ei as int].1));
                        assert(self@[si as int] == scope_view(scope@));
                        assert(self@.subrange(0, si + 1)[si as int] == self@[si as int]);
                        assert(env_lookup(self@.subrange(0, si + 1), name@) == Some(
                            value_view(scope@[ei as int].1),
                        ));
                    }
                    return Some(&scope[ei].1);
                }
            }
            proof {
                assert(scope@.subrange(0, 0) =~= Seq::<(String, Value)>::empty());
                assert(!scope_view(scope@).contains_key(name@));
                assert(self@.subrange(0, si + 1)[si as int] == scope_view(scope@));
                assert(self@.subrange(0, si + 1).subrange(0, si as int) =~= self@.subrange(
                    0,
                    si as int,
                ));
            }
        }
        proof {
            assert(self@.subrange(0, 0) =~= Seq::<Map<Seq<char>, ValueView>>::empty());
        }
        None
    }
}

} // verus!
