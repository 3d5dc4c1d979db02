//! Access to what a process is started with: its arguments, its environment
//! and its standard streams.

use vstd::prelude::*;

verus! {

/// Access to command-line arguments.
pub trait Args {
    /// Returns the command-line arguments, in order.
    fn args(&self) -> Vec<String>;
}

/// Access to environment variables.
pub trait Environment {
    /// Returns the environment variables, each with its value.
    fn vars(&self) -> Vec<(String, String)>;

    /// Gets the value of an environment variable.
    fn var(&self, key: &str) -> Option<String>;
}

/// Standard input stream.
pub trait Stdin {
    /// Read bytes from stdin. The number that comes back is that of the
    /// bytes read; it is never more than the buffer has room for.
    fn read(&self, buf: &mut [u8]) -> (r: Result<usize, std::io::Error>)
        ensures
            final(buf)@.len() == old(buf)@.len(),
            r matches Ok(n) ==> n <= old(buf)@.len(),
    ;
}

/// Standard output stream.
pub trait Stdout {
    /// Write bytes to stdout. The number that comes back is that of the
    /// bytes taken; it is never more than were given.
    fn write(&self, buf: &[u8]) -> (r: Result<usize, std::io::Error>)
        ensures
            r matches Ok(n) ==> n <= buf@.len(),
    ;

    /// Flush stdout.
    fn flush(&self) -> Result<(), std::io::Error>;
}

/// Standard error stream.
pub trait Stderr {
    /// Write bytes to stderr. The number that comes back is that of the
    /// bytes taken; it is never more than were given.
    fn write(&self, buf: &[u8]) -> (r: Result<usize, std::io::Error>)
        ensures
            r matches Ok(n) ==> n <= buf@.len(),
    ;

    /// Flush stderr.
    fn flush(&self) -> Result<(), std::io::Error>;
}

} // verus!
