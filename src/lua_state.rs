use vstd::prelude::*;

verus! {

/// A handle on one interpreter instance, addressed by the engine's opaque
/// reference. An owning handle is the one that must release the instance; a
/// non-owning handle is a view and never releases it.
pub struct LuaState {
    ptr: usize,
    owned: bool,
}

/// The engine's type tags, as `lua_type` reports them.
pub const LUA_TNONE: i32 = -1;
pub const LUA_TNIL: i32 = 0;
pub const LUA_TBOOLEAN: i32 = 1;
pub const LUA_TLIGHTUSERDATA: i32 = 2;
pub const LUA_TNUMBER: i32 = 3;
pub const LUA_TSTRING: i32 = 4;
pub const LUA_TTABLE: i32 = 5;
pub const LUA_TFUNCTION: i32 = 6;
pub const LUA_TUSERDATA: i32 = 7;
pub const LUA_TTHREAD: i32 = 8;

/// The engine's name for a type tag, as `lua_typename` gives it.
pub open spec fn type_name_of(tp: int) -> Seq<char> {
    if tp == -1 {
        "no value"@
    } else if tp == 0 {
        "nil"@
    } else if tp == 1 {
        "boolean"@
    } else if tp == 2 || tp == 7 {
        "userdata"@
    } else if tp == 3 {
        "number"@
    } else if tp == 4 {
        "string"@
    } else if tp == 5 {
        "table"@
    } else if tp == 6 {
        "function"@
    } else {
        "thread"@
    }
}

/// The answers of a sequence of `n` releases, the first on `h`.
pub open spec fn release_trace(h: LuaState, n: nat) -> Seq<Option<usize>>
    decreases n,
{
    if n == 0 {
        Seq::empty()
    } else {
        seq![h.release_result()] + release_trace(h.spent(), (n - 1) as nat)
    }
}

impl LuaState {
    /// The engine's reference to the instance.
    pub closed spec fn instance(&self) -> usize {
        self.ptr
    }

    /// Whether this handle is the one that must release the instance.
    pub closed spec fn is_owner(&self) -> bool {
        self.owned
    }

    /// The handle once it has given up its duty to release.
    pub closed spec fn spent(&self) -> LuaState {
        LuaState { ptr: self.ptr, owned: false }
    }

    /// What a release of this handle hands to the engine's release primitive.
    pub open spec fn release_result(&self) -> Option<usize> {
        if self.is_owner() {
            Some(self.instance())
        } else {
            None
        }
    }

    /// Takes charge of an instance the engine has just constructed (a fresh
    /// instance or a sub-instance). The null reference means that construction
    /// failed, and gives no handle.
    pub fn owning(state: usize) -> (r: Option<LuaState>)
        ensures
            state == 0 <==> r is None,
            r matches Some(h) ==> h.instance() == state && h.is_owner(),
    {
        if state == 0 {
            None
        } else {
            Some(LuaState { ptr: state, owned: true })
        }
    }

    /// Wraps an instance obtained elsewhere, without taking charge of it.
    pub fn from_ptr(state: usize) -> (r: LuaState)
        ensures
            r.instance() == state,
            !r.is_owner(),
    {
        LuaState { ptr: state, owned: false }
    }

    /// The engine's reference to the instance.
    pub fn get_state(&mut self) -> (r: usize)
        ensures
            r == old(self).instance(),
            *final(self) == *old(self),
    {
        self.ptr
    }

    /// Whether this handle is the one that must release the instance.
    pub fn owns(&self) -> (r: bool)
        ensures
            r == self.is_owner(),
    {
        self.owned
    }

    /// Gives up the duty to release: hands back the instance to release if this
    /// handle owned it, and nothing otherwise. Afterwards the handle owns nothing,
    /// so the instance is released at most once.
    pub fn release(&mut self) -> (r: Option<usize>)
        ensures
            r == old(self).release_result(),
            *final(self) == old(self).spent(),
            final(self).instance() == old(self).instance(),
            !final(self).is_owner(),
    {
        if self.owned {
            self.owned = false;
            Some(self.ptr)
        } else {
            None
        }
    }

    /// Reads the engine's answer to `lua_isnumber` for a stack slot.
    pub fn isnumber(&mut self, answer: libc::c_int) -> (r: bool)
        ensures
            r == (answer != 0),
            *final(self) == *old(self),
    {
        answer != 0
    }

    /// Reads the engine's answer to `lua_isstring` for a stack slot.
    pub fn isstring(&mut self, answer: libc::c_int) -> (r: bool)
        ensures
            r == (answer != 0),
            *final(self) == *old(self),
    {
        answer != 0
    }

    /// Reads the engine's answer to `lua_iscfunction` for a stack slot.
    pub fn iscfunction(&mut self, answer: libc::c_int) -> (r: bool)
        ensures
            r == (answer != 0),
            *final(self) == *old(self),
    {
        answer != 0
    }

    /// Reads the engine's answer to `lua_isinteger` for a stack slot.
    pub fn isinteger(&mut self, answer: libc::c_int) -> (r: bool)
        ensures
            r == (answer != 0),
            *final(self) == *old(self),
    {
        answer != 0
    }

    /// Reads the engine's answer to `lua_isuserdata` for a stack slot.
    pub fn isuserdata(&mut self, answer: libc::c_int) -> (r: bool)
        ensures
            r == (answer != 0),
            *final(self) == *old(self),
    {
        answer != 0
    }

    /// The engine's name for the type tag `tp` (`LUA_TNONE` to `LUA_TTHREAD`).
    pub fn typename(&mut self, tp: libc::c_int) -> (r: &'static str)
        requires
            LUA_TNONE <= tp <= LUA_TTHREAD,
        ensures
            r@ == type_name_of(tp as int),
            *final(self) == *old(self),
    {
        let r = if tp == LUA_TNONE {
            "no value"
        } else if tp == LUA_TNIL {
            "nil"
        } else if tp == LUA_TBOOLEAN {
            "boolean"
        } else if tp == LUA_TLIGHTUSERDATA || tp == LUA_TUSERDATA {
            "userdata"
        } else if tp == LUA_TNUMBER {
            "number"
        } else if tp == LUA_TSTRING {
            "string"
        } else if tp == LUA_TTABLE {
            "table"
        } else if tp == LUA_TFUNCTION {
            "function"
        } else {
            "thread"
        };
        proof {
            reveal_strlit("no value");
            reveal_strlit("nil");
            reveal_strlit("boolean");
            reveal_strlit("userdata");
            reveal_strlit("number");
            reveal_strlit("string");
            reveal_strlit("table");
            reveal_strlit("function");
            reveal_strlit("thread");
        }
        r
    }
}

/// Single release: over any number of releases, an owning handle hands its
/// instance to the release primitive exactly once, at the first, and a
/// non-owning handle never does.
pub proof fn lemma_single_release(h: LuaState, n: nat)
    ensures
        release_trace(h, n).len() == n,
        n >= 1 ==> release_trace(h, n)[0] == h.release_result(),
        forall|i: int| 1 <= i < n ==> #[trigger] release_trace(h, n)[i] is None,
        !h.is_owner() ==> forall|i: int| 0 <= i < n ==> #[trigger] release_trace(h, n)[i] is None,
        h.is_owner() ==> h.release_result() == Some(h.instance()),
    decreases n,
{
    if n > 0 {
        let s = h.spent();
        lemma_single_release(s, (n - 1) as nat);
        assert(!s.is_owner());
        let t = release_trace(h, n);
        let rest = release_trace(s, (n - 1) as nat);
        assert forall|i: int| 1 <= i < n implies #[trigger] t[i] is None by {
            assert(t[i] == rest[i - 1]);
        }
    }
}

/// Two owning handles, one on an instance and one on a sub-instance derived from
/// it, are released independently: releasing the parent hands over the parent's
/// instance only, and leaves the child owning its own.
pub proof fn lemma_owners_independent(parent: LuaState, child: LuaState)
    requires
        parent.is_owner(),
        child.is_owner(),
        parent.instance() != child.instance(),
    ensures
        parent.release_result() == Some(parent.instance()),
        parent.release_result() != Some(child.instance()),
        parent.spent().instance() == parent.instance(),
        child.release_result() == Some(child.instance()),
{
}

} // verus!
