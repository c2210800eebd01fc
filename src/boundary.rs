//! What a compilation hands across the foreign boundary. Each buffer and
//! message of a result is owned by the result alone; releasing the result
//! releases all of them, once.
use vstd::prelude::*;

verus! {

/// A progress reporter that reports nothing: packages are fetched silently.
pub struct SilentDownload<T>(pub T);

/// One output buffer, such as one exported page.
pub struct Buffer {
    pub bytes: Vec<u8>,
}

impl Buffer {
    /// The number of bytes.
    pub fn len(&self) -> (r: usize)
        ensures
            r == self.bytes@.len(),
    {
        self.bytes.len()
    }
}

/// One warning of the compiler.
pub struct Warning {
    pub message: String,
}

/// The outcome of a compilation: the buffers and warnings of a success, or
/// the message of a failure.
pub struct CompileResult {
    pub buffers: Vec<Buffer>,
    pub warnings: Vec<Warning>,
    pub error: Option<String>,
}

impl Default for CompileResult {
    /// No buffers, no warnings and no error.
    fn default() -> (r: Self)
        ensures
            r.buffers@.len() == 0,
            r.warnings@.len() == 0,
            r.error is None,
    {
        CompileResult { buffers: Vec::new(), warnings: Vec::new(), error: None }
    }
}

impl CompileResult {
    /// The buffers of `r` are the byte strings `bytes`, in order.
    pub open spec fn holds_buffers(&self, bytes: Seq<Seq<u8>>) -> bool {
        &&& self.buffers@.len() == bytes.len()
        &&& forall|i: int| 0 <= i < bytes.len() ==> self.buffers@[i].bytes@ == bytes[i]
    }

    /// The warnings of `r` are the messages `messages`, in order.
    pub open spec fn holds_warnings(&self, messages: Seq<Seq<char>>) -> bool {
        &&& self.warnings@.len() == messages.len()
        &&& forall|i: int| 0 <= i < messages.len() ==> self.warnings@[i].message@ == messages[i]
    }

    /// The result of a successful compilation: every buffer and every
    /// warning, in order, and no error.
    pub fn success(buffers: Vec<Vec<u8>>, warnings: Vec<String>) -> (r: CompileResult)
        ensures
            r.holds_buffers(buffers@.map_values(|b: Vec<u8>| b@)),
            r.holds_warnings(warnings@.map_values(|w: String| w@)),
            r.error is None,
    {
        let mut out_buffers: Vec<Buffer> = Vec::new();
        let mut rest = buffers;
        let ghost all = rest@;
        let n = rest.len();
        let mut k: usize = 0;
        while k < n
            invariant
                n == all.len(),
                all.len() == rest@.len() + k,
                rest@ == all.subrange(k as int, n as int),
                out_buffers@.len() == k,
                forall|i: int| 0 <= i < k ==> out_buffers@[i].bytes@ == all[i]@,
            decreases all.len() - k,
        {
            let b = rest.remove(0);
            out_buffers.push(Buffer { bytes: b });
            k = k + 1;
        }
        let mut out_warnings: Vec<Warning> = Vec::new();
        let mut rest_w = warnings;
        let ghost all_w = rest_w@;
        let m = rest_w.len();
        let mut j: usize = 0;
        while j < m
            invariant
                m == all_w.len(),
                all_w.len() == rest_w@.len() + j,
                rest_w@ == all_w.subrange(j as int, m as int),
                out_warnings@.len() == j,
                forall|i: int| 0 <= i < j ==> out_warnings@[i].message@ == all_w[i]@,
            decreases all_w.len() - j,
        {
            let w = rest_w.remove(0);
            out_warnings.push(Warning { message: w });
            j = j + 1;
        }
        CompileResult { buffers: out_buffers, warnings: out_warnings, error: None }
    }

    /// The result of a failed compilation: the message, and no buffer or
    /// warning.
    pub fn failure(message: String) -> (r: CompileResult)
        ensures
            r.buffers@.len() == 0,
            r.warnings@.len() == 0,
            r.error matches Some(m) && m@ == message@,
    {
        CompileResult { buffers: Vec::new(), warnings: Vec::new(), error: Some(message) }
    }

    /// The result of a compilation outcome: the buffers and warnings of a
    /// success, the message of a failure.
    pub fn from_outcome(outcome: Result<(Vec<Vec<u8>>, Vec<String>), String>) -> (r: CompileResult)
        ensures
            match outcome {
                Ok((b, w)) => r.holds_buffers(b@.map_values(|x: Vec<u8>| x@)) && r.holds_warnings(
                    w@.map_values(|x: String| x@),
                ) && r.error is None,
                Err(m) => r.buffers@.len() == 0 && r.warnings@.len() == 0 && (r.error matches Some(
                    e,
                ) && e@ == m@),
            },
    {
        match outcome {
            Ok((b, w)) => CompileResult::success(b, w),
            Err(m) => CompileResult::failure(m),
        }
    }
}

/// Releases a result with everything it owns: each buffer, each warning and
/// the error message. Taking the result by value makes the release happen
/// once, and nothing of it can be used afterwards.
pub fn free_compile_result(result: CompileResult) {
    let CompileResult { buffers: _, warnings: _, error: _ } = result;
}

/// Releases a string handed out by the boundary, once.
pub fn free_string(s: String) {
    let _owned: String = s;
}

} // verus!
