//! The `update` command of the bot: which servers it asks to update, and
//! the reply it posts for each.

use vstd::prelude::*;
use crate::client::configuration::{server_url, Server};

verus! {

/// One update request of the command: where it goes and the token it carries.
pub struct UpdateTarget {
    pub address: String,
    pub token: String,
}

/// The requests of the `update` command, one per configured server, in the
/// order the configuration lists them.
pub fn update_targets(servers: &Vec<Server>) -> (targets: Vec<UpdateTarget>)
    ensures
        targets@.len() == servers@.len(),
        forall|i: int|
            0 <= i < servers@.len() ==> {
                &&& (#[trigger] targets@[i]).address@ == server_url(
                    servers@[i].address@,
                    servers@[i].port,
                )
                &&& targets@[i].token@ == servers@[i].token@
            },
{
    let mut targets: Vec<UpdateTarget> = Vec::new();
    let mut i: usize = 0;
    while i < servers.len()
        invariant
            0 <= i <= servers@.len(),
            targets@.len() == i,
            forall|j: int|
                0 <= j < i ==> {
                    &&& (#[trigger] targets@[j]).address@ == server_url(
                        servers@[j].address@,
                        servers@[j].port,
                    )
                    &&& targets@[j].token@ == servers@[j].token@
                },
        decreases servers@.len() - i,
    {
        let server = &servers[i];
        let address = server.get_address();
        let token = String::from_str(server.get_token());
        targets.push(UpdateTarget { address, token });
        i = i + 1;
    }
    targets
}

/// The reply posted for one server, given whether its update succeeded or
/// the text of why not.
pub open spec fn reply_text(address: Seq<char>, outcome: Result<(), Seq<char>>) -> Seq<char> {
    match outcome {
        Ok(()) => "Updated server: `"@ + address + "`."@,
        Err(why) => "Error updating server: `"@ + address + "` because of `"@ + why + "`."@,
    }
}

/// The reply posted for the server at `address`.
pub fn update_reply(address: &str, outcome: Result<(), String>) -> (reply: String)
    ensures
        reply@ == reply_text(
            address@,
            match outcome {
                Ok(()) => Ok(()),
                Err(why) => Err(why@),
            },
        ),
{
    match outcome {
        Ok(()) => {
            let mut reply = String::from_str("Updated server: `");
            reply.append(address);
            reply.append("`.");
            reply
        },
        Err(why) => {
            let mut reply = String::from_str("Error updating server: `");
            reply.append(address);
            reply.append("` because of `");
            reply.append(why.as_str());
            reply.append("`.");
            reply
        },
    }
}

/// A success reply is `Updated server: ` followed by the whole address in
/// backquotes and a full stop; a failure reply is `Error updating server: `
/// followed by the whole address in backquotes, ` because of `, the whole
/// reason in backquotes and a full stop.
pub proof fn lemma_reply_names_address_and_reason(address: Seq<char>, why: Seq<char>)
    ensures
        reply_text(address, Ok(())).len() == 19 + address.len(),
        reply_text(address, Ok(())).subrange(0, 17) == "Updated server: `"@,
        reply_text(address, Ok(())).subrange(17, 17 + address.len() as int) == address,
        reply_text(address, Ok(())).subrange(17 + address.len() as int, 19 + address.len() as int)
            == "`."@,
        reply_text(address, Err(why)).len() == 40 + address.len() + why.len(),
        reply_text(address, Err(why)).subrange(0, 24) == "Error updating server: `"@,
        reply_text(address, Err(why)).subrange(24, 24 + address.len() as int) == address,
        reply_text(address, Err(why)).subrange(24 + address.len() as int, 38 + address.len() as int)
            == "` because of `"@,
        reply_text(address, Err(why)).subrange(
            38 + address.len() as int,
            38 + address.len() as int + why.len() as int,
        ) == why,
        reply_text(address, Err(why)).subrange(
            38 + address.len() as int + why.len() as int,
            40 + address.len() as int + why.len() as int,
        ) == "`."@,
{
    reveal_strlit("Updated server: `");
    reveal_strlit("`.");
    reveal_strlit("Error updating server: `");
    reveal_strlit("` because of `");
    let ok = reply_text(address, Ok(()));
    assert(ok == "Updated server: `"@ + address + "`."@);
    assert(ok.subrange(0, 17) =~= "Updated server: `"@);
    assert(ok.subrange(17, 17 + address.len() as int) =~= address);
    assert(ok.subrange(17 + address.len() as int, 19 + address.len() as int) =~= "`."@);
    let err = reply_text(address, Err(why));
    let a = address.len() as int;
    let w = why.len() as int;
    assert(err == "Error updating server: `"@ + address + "` because of `"@ + why + "`."@);
    assert(err.subrange(0, 24) =~= "Error updating server: `"@);
    assert(err.subrange(24, 24 + a) =~= address);
    assert(err.subrange(24 + a, 38 + a) =~= "` because of `"@);
    assert(err.subrange(38 + a, 38 + a + w) =~= why);
    assert(err.subrange(38 + a + w, 40 + a + w) =~= "`."@);
}

} // verus!
