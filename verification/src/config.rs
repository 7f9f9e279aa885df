use vstd::prelude::*;

verus! {

/// Why a receiver configuration was refused.
#[derive(Clone, Copy, Debug, PartialEq, Eq, Structural)]
pub enum ConfigError {
    /// The batch size must be a positive number of records.
    ZeroBatchSize,
}

/// The batch size a configuration ends up with: the given one, or `default`
/// when none is given.
pub open spec fn chosen_batch_size(batch_size: Option<usize>, default: usize) -> usize {
    match batch_size {
        Some(n) => n,
        None => default,
    }
}

/// Applies the default batch size and refuses a zero batch size.
pub fn resolve_batch_size(batch_size: Option<usize>, default: usize) -> (resolved: Result<usize, ConfigError>)
    ensures
        chosen_batch_size(batch_size, default) == 0 <==> resolved is Err,
        resolved matches Ok(n) ==> n == chosen_batch_size(batch_size, default),
        resolved matches Err(e) ==> e == ConfigError::ZeroBatchSize,
        batch_size matches Some(n) && n > 0 ==> resolved == Ok::<usize, ConfigError>(batch_size->Some_0),
        batch_size == Some(0usize) ==> resolved == Err::<usize, ConfigError>(ConfigError::ZeroBatchSize),
        batch_size is None && default > 0 ==> resolved == Ok::<usize, ConfigError>(default),
{
    let n = match batch_size {
        Some(n) => n,
        None => default,
    };
    if n == 0 {
        Err(ConfigError::ZeroBatchSize)
    } else {
        Ok(n)
    }
}

/// A configured batch size is kept as given, whatever its size; the default
/// is used only when none is given.
pub proof fn lemma_given_batch_size_kept(n: usize, default: usize)
    ensures
        chosen_batch_size(Some(n), default) == n,
        chosen_batch_size(None, default) == default,
{
}

/// The text a configuration ends up with: the given one, or `default`.
pub open spec fn chosen_text(value: Option<String>, default: Seq<char>) -> Seq<char> {
    match value {
        Some(s) => s@,
        None => default,
    }
}

} // verus!
