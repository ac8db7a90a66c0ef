//! What comes back of what was exported.

use vstd::prelude::*;
use vstd::utf8::{
    decode_utf8, encode_utf8, encode_utf8_decode_utf8, encode_utf8_valid_utf8, valid_utf8,
};

use crate::config::Config;
use crate::domain::identity::{Identity, IdentityKey};
use crate::domain::user::{User, UserKey};
use crate::error::Failure;
use crate::laws::sessions::{
    law_session_exactly_if_device_may_act, may_act, session_answers, session_outcome,
};
use crate::laws::{accounts_distinct, Tables};
use crate::routes::admin::{env_text, export_entries, import_outcome, law_export_imports};

verus! {

/// The content of a file of a directory, if there is one.
pub open spec fn file(dir: Map<Seq<char>, Seq<u8>>, path: Seq<char>) -> Option<Seq<u8>> {
    if dir.contains_key(path) {
        Some(dir[path])
    } else {
        None
    }
}

/// The text of a file of a directory, if there is one that holds text.
pub open spec fn text_file(dir: Map<Seq<char>, Seq<u8>>, path: Seq<char>) -> Option<Seq<char>> {
    if dir.contains_key(path) && valid_utf8(dir[path]) {
        Some(decode_utf8(dir[path]))
    } else {
        None
    }
}

/// Whether the entries of an archive were unpacked into a directory.
pub open spec fn unpacked(
    dir: Map<Seq<char>, Seq<u8>>,
    entries: Seq<(Seq<char>, Seq<u8>)>,
) -> bool {
    forall|i: int|
        0 <= i < entries.len() ==> file(dir, (#[trigger] entries[i]).0) == Some(entries[i].1)
}

/// What an import makes of a directory into which an archive was unpacked.
pub open spec fn imported(dir: Map<Seq<char>, Seq<u8>>, opens: bool, config: Config) -> Result<
    Seq<u8>,
    Failure,
> {
    import_outcome(text_file(dir, ".env"@), file(dir, "pwd_manager.db"@), opens, config)
}

/// An import of what the same server exported, unpacked, succeeds and puts the
/// very database in place that was exported.
pub proof fn law_import_restores_the_export(
    database: Seq<u8>,
    config: Config,
    moment: int,
    dir: Map<Seq<char>, Seq<u8>>,
)
    requires
        unpacked(dir, export_entries(database, config, moment)),
    ensures
        imported(dir, true, config) == Ok::<Seq<u8>, Failure>(database),
{
    let env = env_text(config.database_encrypt_secret@, config.software_secret@);
    let entries = export_entries(database, config, moment);
    assert(file(dir, entries[0].0) == Some(database));
    assert(file(dir, entries[1].0) == Some(encode_utf8(env)));
    encode_utf8_valid_utf8(env);
    encode_utf8_decode_utf8(env);
    law_export_imports(config.database_encrypt_secret@, config.software_secret@);
}

/// After an import every device that might act when the archive was exported
/// has its session again, by the same token and from the same address, whatever
/// became of it since. The tables are those that the database engine reads in
/// the imported bytes.
pub proof fn law_import_brings_sessions_back(
    reads: spec_fn(Seq<u8>) -> Tables,
    database: Seq<u8>,
    config: Config,
    moment: int,
    dir: Map<Seq<char>, Seq<u8>>,
    device: Identity,
    digest: IdentityKey,
    account: UserKey,
    ip: Seq<char>,
    found: Option<Identity>,
    owner: Option<User>,
)
    requires
        unpacked(dir, export_entries(database, config, moment)),
        may_act(reads(database), device, digest->DeviceToken_0@, ip),
        accounts_distinct(reads(database).users),
        forall|a: Identity, b: Identity|
            reads(database).identities.contains(a) && reads(database).identities.contains(b)
                && #[trigger] digest.finds(a) && #[trigger] digest.finds(b) ==> a == b,
        imported(dir, true, config) is Ok ==> session_answers(
            reads(imported(dir, true, config)->Ok_0),
            digest,
            account,
            found,
            owner,
        ),
    ensures
        imported(dir, true, config) is Ok,
        reads(imported(dir, true, config)->Ok_0) == reads(database),
        session_outcome(found, ip, owner) == Ok::<Identity, Failure>(device),
{
    law_import_restores_the_export(database, config, moment, dir);
    law_session_exactly_if_device_may_act(reads(database), digest, account, ip, found, owner);
    assert(digest.finds(device));
    if let Some(row) = found {
        let wanted = |row: Identity| digest.finds(row);
        assert(wanted(row));
    }
}

} // verus!
