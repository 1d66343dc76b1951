//! Messages exchanged with the remote physics authority, and the topics they
//! travel on. Court positions are in thousandths of a court unit.
use vstd::prelude::*;
use vstd::string::*;

verus! {

/// Sent by a client: the top of its paddle, in court units.
#[derive(Clone, Copy, Debug)]
pub struct PaddleMsg {
    pub y: i32,
    pub timestamp: u64,
}

/// Sent by the server: the authoritative ball position and velocity.
#[derive(Clone, Copy, Debug)]
pub struct BallMsg {
    pub x: i32,
    pub y: i32,
    pub dx: i32,
    pub dy: i32,
    pub timestamp: u64,
}

/// Lifecycle of a networked match.
#[derive(Clone, Copy, Debug, PartialEq, Eq, Structural)]
pub enum GameStatus {
    Waiting,
    Playing,
    Ended,
}

/// Sent by the server: both scores and the match's status.
#[derive(Clone, Copy, Debug)]
pub struct StateMsg {
    pub p1_score: u32,
    pub p2_score: u32,
    pub status: GameStatus,
    pub timestamp: u64,
}

/// Sent by a client when it joins: its player number (1 or 2).
#[derive(Clone, Copy, Debug)]
pub struct JoinMsg {
    pub player: u8,
    pub timestamp: u64,
}

/// What the network side reports to the game loop.
#[derive(Clone, Copy, Debug)]
pub enum NetworkEvent {
    /// The opponent's paddle moved to this court position.
    OpponentPaddle(i32),
    /// The server published the ball's state.
    BallUpdate(BallMsg),
    /// The server published scores and status.
    StateUpdate(StateMsg),
    /// The connection to the broker is up.
    Connected,
    /// The connection to the broker was lost.
    Disconnected,
}

/// The topic of one concern of a match.
pub open spec fn topic_of(game_id: Seq<char>, suffix: Seq<char>) -> Seq<char> {
    "pong/game/"@ + game_id + suffix
}

/// The topic names of one match.
pub struct Topics {
    pub game_id: String,
}

impl Topics {
    pub fn new(game_id: &str) -> (r: Topics)
        ensures
            r.game_id@ == game_id@,
    {
        Topics { game_id: String::from_str(game_id) }
    }

    fn topic(&self, suffix: &str) -> (r: String)
        ensures
            r@ == topic_of(self.game_id@, suffix@),
    {
        String::from_str("pong/game/").concat(self.game_id.as_str()).concat(suffix)
    }

    pub fn p1_paddle(&self) -> (r: String)
        ensures
            r@ == topic_of(self.game_id@, "/p1/paddle"@),
    {
        self.topic("/p1/paddle")
    }

    pub fn p2_paddle(&self) -> (r: String)
        ensures
            r@ == topic_of(self.game_id@, "/p2/paddle"@),
    {
        self.topic("/p2/paddle")
    }

    pub fn ball(&self) -> (r: String)
        ensures
            r@ == topic_of(self.game_id@, "/ball"@),
    {
        self.topic("/ball")
    }

    pub fn state(&self) -> (r: String)
        ensures
            r@ == topic_of(self.game_id@, "/state"@),
    {
        self.topic("/state")
    }

    pub fn join(&self) -> (r: String)
        ensures
            r@ == topic_of(self.game_id@, "/join"@),
    {
        self.topic("/join")
    }

    pub fn serve(&self) -> (r: String)
        ensures
            r@ == topic_of(self.game_id@, "/serve"@),
    {
        self.topic("/serve")
    }

    pub fn restart(&self) -> (r: String)
        ensures
            r@ == topic_of(self.game_id@, "/restart"@),
    {
        self.topic("/restart")
    }

    pub fn ready(&self) -> (r: String)
        ensures
            r@ == topic_of(self.game_id@, "/ready"@),
    {
        self.topic("/ready")
    }
}

/// Which kind of message arrived, by the topic it came on.
#[derive(Clone, Copy, Debug, PartialEq, Eq, Structural)]
pub enum Inbound {
    OpponentPaddle,
    Ball,
    State,
}

/// The suffix of the paddle topic of `player`: player 1 publishes on the
/// first paddle topic, any other number on the second.
pub open spec fn paddle_suffix(player: u8) -> Seq<char> {
    if player == 1 {
        "/p1/paddle"@
    } else {
        "/p2/paddle"@
    }
}

/// The suffix of the paddle topic of `player`'s opponent.
pub open spec fn opponent_suffix(player: u8) -> Seq<char> {
    if player == 1 {
        "/p2/paddle"@
    } else {
        "/p1/paddle"@
    }
}

/// What a message on `topic` is, to a client playing as `player`: the
/// opponent's paddle, the ball or the match state; nothing on any other
/// topic.
pub open spec fn spec_classify(game_id: Seq<char>, player: u8, topic: Seq<char>) -> Option<Inbound> {
    if topic == topic_of(game_id, opponent_suffix(player)) {
        Some(Inbound::OpponentPaddle)
    } else if topic == topic_of(game_id, "/ball"@) {
        Some(Inbound::Ball)
    } else if topic == topic_of(game_id, "/state"@) {
        Some(Inbound::State)
    } else {
        None
    }
}

/// Whether two strings hold the same characters.
pub fn same_text(a: &str, b: &str) -> (r: bool)
    ensures
        r == (a@ == b@),
{
    let n = a.unicode_len();
    if n != b.unicode_len() {
        return false;
    }
    let mut i: usize = 0;
    while i < n
        invariant
            n == a@.len(),
            n == b@.len(),
            i <= n,
            forall|j: int| 0 <= j < i ==> a@[j] == b@[j],
        decreases n - i,
    {
        if a.get_char(i) != b.get_char(i) {
            return false;
        }
        i = i + 1;
    }
    assert(a@ =~= b@);
    true
}

impl Topics {
    /// The paddle topic that a client playing as `player` publishes on.
    pub fn own_paddle(&self, player: u8) -> (r: String)
        ensures
            r@ == topic_of(self.game_id@, paddle_suffix(player)),
    {
        if player == 1 {
            self.p1_paddle()
        } else {
            self.p2_paddle()
        }
    }

    /// The paddle topic of the opponent of a client playing as `player`.
    pub fn opponent_paddle(&self, player: u8) -> (r: String)
        ensures
            r@ == topic_of(self.game_id@, opponent_suffix(player)),
    {
        if player == 1 {
            self.p2_paddle()
        } else {
            self.p1_paddle()
        }
    }

    /// What a message on `topic` is to a client playing as `player`.
    pub fn classify(&self, player: u8, topic: &str) -> (r: Option<Inbound>)
        ensures
            r == spec_classify(self.game_id@, player, topic@),
    {
        if same_text(topic, self.opponent_paddle(player).as_str()) {
            Some(Inbound::OpponentPaddle)
        } else if same_text(topic, self.ball().as_str()) {
            Some(Inbound::Ball)
        } else if same_text(topic, self.state().as_str()) {
            Some(Inbound::State)
        } else {
            None
        }
    }
}

/// Where and as whom to connect.
pub struct NetworkConfig {
    pub broker_host: String,
    pub broker_port: u16,
    pub game_id: String,
    /// 1 or 2.
    pub player: u8,
    pub username: Option<String>,
    pub password: Option<String>,
}

impl Default for NetworkConfig {
    fn default() -> (r: NetworkConfig)
        ensures
            r.broker_host@ == "3.141.116.27"@,
            r.broker_port == 1883,
            r.game_id@ == "demo"@,
            r.player == 1,
            r.username matches Some(u) && u@ == "raptor"@,
            r.password matches Some(p) && p@ == "raptorMQTT2025"@,
    {
        NetworkConfig {
            broker_host: String::from_str("3.141.116.27"),
            broker_port: 1883,
            game_id: String::from_str("demo"),
            player: 1,
            username: Some(String::from_str("raptor")),
            password: Some(String::from_str("raptorMQTT2025")),
        }
    }
}

} // verus!
