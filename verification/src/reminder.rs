//! The producer: it holds the configuration, drives the scheduler, and on
//! every fire, automatic or asked for, builds the toast and publishes it.

use crate::audio_manager::AudioError;
use crate::config::{Config, ToasterConfig};
use crate::text::join;
use crate::timer::{
    as_nat, interval_millis_of, is_next_content, TimerService, TimerView, MAX_TIMESTAMP_MILLIS,
};
use crate::websocket::{publish_on, MessageView, ToastView, WebSocketMessage, MILLIS_PER_SECOND};
use tokio::sync::broadcast::Sender;
use vstd::prelude::*;

verus! {

/// How long, in milliseconds, no further test toast is sent after one.
pub const TEST_TOAST_COOLDOWN_MILLIS: u64 = 1200;

/// Whether there is a title and a content to show.
pub open spec fn has_content(t: ToasterConfig) -> bool {
    t.titles@.len() > 0 && t.contents@.len() > 0
}

/// Whether the duration, given in seconds, can be carried in milliseconds.
pub open spec fn duration_fits(t: ToasterConfig) -> bool {
    t.duration * MILLIS_PER_SECOND <= u32::MAX
}

/// Whether the toast that the configuration asks for can be built: where
/// there is something to show, its duration can be carried in milliseconds.
pub open spec fn toast_fits(t: ToasterConfig) -> bool {
    has_content(t) ==> duration_fits(t)
}

/// Where the overlay fetches the sound of a toast from: the path of the
/// cached sound file, and nothing where sound is off or no file is chosen.
pub open spec fn sound_url_of(t: ToasterConfig) -> Option<Seq<char>> {
    if t.enable_sound {
        match t.sound_file_id {
            Some(id) => Some("/audio/"@ + id@),
            None => None,
        }
    } else {
        None
    }
}

/// The toast that shows `title` and `content` the way the configuration
/// asks for.
pub open spec fn toast_of(t: ToasterConfig, title: Seq<char>, content: Seq<char>) -> MessageView {
    MessageView {
        kind: "toast"@,
        data: ToastView {
            title,
            content,
            color_1: t.color_1@,
            color_2: t.color_2@,
            text_color: t.text_color@,
            duration: (t.duration * MILLIS_PER_SECOND) as nat,
            enable_sound: t.enable_sound,
            sound_url: sound_url_of(t),
            direction: t.toast_direction,
        },
    }
}

/// The configuration with another sound file, and nothing else changed.
pub open spec fn with_sound_file(config: Config, id: Option<String>, name: Option<String>) -> Config {
    Config {
        toaster: ToasterConfig { sound_file_id: id, sound_file_name: name, ..config.toaster },
        ..config
    }
}

pub open spec fn servers_ready() -> Seq<char> {
    "Servers Ready"@
}

pub open spec fn timer_running() -> Seq<char> {
    "Timer Running"@
}

pub open spec fn websocket_ready() -> Seq<char> {
    "WebSocket Ready"@
}

pub struct ObsReminderApp {
    config: Config,
    config_path: String,
    websocket_sender: Sender<WebSocketMessage>,
    timer_service: TimerService,
    connection_status: String,
    test_toast_cooldown: Option<u64>,
}

impl ObsReminderApp {
    /// The configuration the service works with.
    pub closed spec fn settings(&self) -> Config {
        self.config
    }

    /// The scheduler, as plain values.
    pub closed spec fn timer(&self) -> TimerView {
        self.timer_service@
    }

    /// The clock reading at which the cooldown of the test toast ends.
    pub closed spec fn cooldown_end(&self) -> Option<nat> {
        as_nat(self.test_toast_cooldown)
    }

    pub closed spec fn status(&self) -> Seq<char> {
        self.connection_status@
    }

    pub closed spec fn path(&self) -> Seq<char> {
        self.config_path@
    }

    pub open spec fn wf(&self) -> bool {
        &&& self.timer().wf()
        &&& self.cooldown_end() matches Some(end) ==> end <= MAX_TIMESTAMP_MILLIS
            + TEST_TOAST_COOLDOWN_MILLIS
    }

    /// Whether the cooldown of the test toast is still on at `now`.
    pub open spec fn cooling_at(&self, now: nat) -> bool {
        self.cooldown_end() matches Some(end) && now < end
    }

    /// What is left of the cooldown at `now`.
    pub open spec fn cooldown_left_at(&self, now: nat) -> Option<nat> {
        match self.cooldown_end() {
            Some(end) => if end > now {
                Some((end - now) as nat)
            } else {
                None
            },
            None => None,
        }
    }

    /// The end of the cooldown after a test toast was sent at `now` with
    /// the answer `sent`: a toast that went to at least one subscriber
    /// starts the cooldown, anything else leaves it as it was.
    pub open spec fn cooldown_after_test(&self, sent: Option<usize>, now: nat) -> Option<nat> {
        match sent {
            Some(delivered) => if delivered > 0 {
                Some(now + TEST_TOAST_COOLDOWN_MILLIS as nat)
            } else {
                self.cooldown_end()
            },
            None => self.cooldown_end(),
        }
    }

    /// The end of the cooldown after a turn of the host's loop at `now`: a
    /// cooldown that is over is cleared.
    pub open spec fn cooldown_after_turn(&self, now: nat) -> Option<nat> {
        if self.cooling_at(now) {
            self.cooldown_end()
        } else {
            None
        }
    }

    /// Whether `after` is this service after it was polled at `now`, with
    /// the answer `fired`: a cooldown that is over is cleared, and a due
    /// toast re-arms the scheduler.
    pub open spec fn is_poll_at(&self, after: ObsReminderApp, fired: bool, now: nat) -> bool {
        &&& fired == self.timer().due_at(now)
        &&& after.timer() == self.timer().polled_at(now)
        &&& after.cooldown_end() == self.cooldown_after_turn(now)
    }

    /// Whether `after` is this service after one turn of the host's loop at
    /// `now`, with the answer `fired`: a cooldown that is over is cleared, a
    /// due toast re-arms the scheduler, and if there is something to show,
    /// the scheduler has picked the next title and content.
    pub open spec fn is_tick_at(&self, after: ObsReminderApp, fired: bool, now: nat) -> bool {
        &&& fired == self.timer().due_at(now)
        &&& after.cooldown_end() == self.cooldown_after_turn(now)
        &&& if fired && has_content(self.settings().toaster) {
            exists|title: Seq<char>, content: Seq<char>| #[trigger]
                is_next_content(
                    self.timer().polled_at(now),
                    after.timer(),
                    self.settings().toaster.titles@,
                    self.settings().toaster.contents@,
                    title,
                    content,
                )
        } else {
            after.timer() == self.timer().polled_at(now)
        }
    }

    /// A stopped service with the given configuration, publishing on
    /// `sender`.
    pub fn new(config: Config, config_path: String, sender: Sender<WebSocketMessage>) -> (r: Self)
        ensures
            r.wf(),
            r.settings() == config,
            r.path() == config_path@,
            r.status() == servers_ready(),
            r.cooldown_end() is None,
            r.timer() == (TimerView {
                interval: interval_millis_of(config),
                running: false,
                cursor: 0,
                mode: config.toaster.content_switch_mode,
                last_fire: None,
                next_fire: None,
            }),
    {
        let timer_service = TimerService::new(&config);
        ObsReminderApp {
            config,
            config_path,
            websocket_sender: sender,
            timer_service,
            connection_status: "Servers Ready".to_owned(),
            test_toast_cooldown: None,
        }
    }

    pub fn config(&self) -> (r: &Config)
        ensures
            *r == self.settings(),
    {
        &self.config
    }

    /// Replaces the configuration. The scheduler keeps its interval and
    /// mode until the service is started again.
    pub fn set_config(&mut self, config: Config)
        ensures
            final(self).settings() == config,
            final(self).path() == old(self).path(),
            final(self).status() == old(self).status(),
            final(self).timer() == old(self).timer(),
            final(self).cooldown_end() == old(self).cooldown_end(),
    {
        self.config = config;
    }

    /// Takes a sound file as the sound of the toasts, if adding it to the
    /// cache succeeded: the configuration then names its identifier, and the
    /// answer is the identifier that it replaces, whose file can go. A
    /// failure is handed back as it came, and nothing changes.
    pub fn sound_file_added(&mut self, added: Result<String, AudioError>, file_name: String) -> (r:
        Result<Option<String>, AudioError>)
        ensures
            final(self).path() == old(self).path(),
            final(self).status() == old(self).status(),
            final(self).timer() == old(self).timer(),
            final(self).cooldown_end() == old(self).cooldown_end(),
            match added {
                Ok(file_id) => {
                    &&& r == Ok::<Option<String>, AudioError>(
                        old(self).settings().toaster.sound_file_id,
                    )
                    &&& final(self).settings() == with_sound_file(
                        old(self).settings(),
                        Some(file_id),
                        Some(file_name),
                    )
                },
                Err(failure) => {
                    &&& r == Err::<Option<String>, AudioError>(failure)
                    &&& final(self).settings() == old(self).settings()
                },
            },
    {
        match added {
            Ok(file_id) => {
                let previous = self.config.toaster.sound_file_id.take();
                self.config.toaster.sound_file_id = Some(file_id);
                self.config.toaster.sound_file_name = Some(file_name);
                Ok(previous)
            },
            Err(failure) => Err(failure),
        }
    }

    /// Takes the sound file out of the configuration. The answer is the
    /// identifier that was named, whose file can go.
    pub fn sound_file_cleared(&mut self) -> (r: Option<String>)
        ensures
            r == old(self).settings().toaster.sound_file_id,
            final(self).settings() == with_sound_file(old(self).settings(), None, None),
            final(self).path() == old(self).path(),
            final(self).status() == old(self).status(),
            final(self).timer() == old(self).timer(),
            final(self).cooldown_end() == old(self).cooldown_end(),
    {
        let previous = self.config.toaster.sound_file_id.take();
        self.config.toaster.sound_file_name = None;
        previous
    }

    /// The identifiers of the cached files that the configuration still
    /// names: what a sweep of the cache has to spare.
    pub fn used_sound_files(&self) -> (r: Vec<String>)
        ensures
            match self.settings().toaster.sound_file_id {
                Some(id) => r@.len() == 1 && r@[0] == id,
                None => r@.len() == 0,
            },
    {
        let mut used: Vec<String> = Vec::new();
        match &self.config.toaster.sound_file_id {
            Some(id) => used.push(id.clone()),
            None => {},
        }
        used
    }

    pub fn config_path(&self) -> (r: &str)
        ensures
            r@ == self.path(),
    {
        self.config_path.as_str()
    }

    pub fn connection_status(&self) -> (r: &str)
        ensures
            r@ == self.status(),
    {
        self.connection_status.as_str()
    }

    pub fn is_running(&self) -> (r: bool)
        ensures
            r == self.timer().running,
    {
        self.timer_service.is_running()
    }

    /// The scheduler, to read.
    pub fn timer_service(&self) -> (r: &TimerService)
        ensures
            r@ == self.timer(),
    {
        &self.timer_service
    }

    pub fn test_toast_cooldown(&self) -> (r: Option<u64>)
        ensures
            as_nat(r) == self.cooldown_end(),
    {
        self.test_toast_cooldown
    }

    pub fn is_test_toast_on_cooldown_at(&self, now: u64) -> (r: bool)
        ensures
            r == self.cooling_at(now as nat),
    {
        match self.test_toast_cooldown {
            Some(cooldown_end) => now < cooldown_end,
            None => false,
        }
    }

    /// Whether the cooldown of the test toast is still on, by the
    /// scheduler's clock.
    pub fn is_test_toast_on_cooldown(&self) -> (r: bool)
        ensures
            self.cooldown_end() is None ==> !r,
            exists|now: nat| now <= MAX_TIMESTAMP_MILLIS && r == #[trigger] self.cooling_at(now),
    {
        let now = self.timer_service.now();
        self.is_test_toast_on_cooldown_at(now)
    }

    /// The milliseconds left of the cooldown at `now`; `None` once it is
    /// over, and where there is none.
    pub fn get_test_toast_cooldown_remaining_at(&self, now: u64) -> (r: Option<u64>)
        ensures
            as_nat(r) == self.cooldown_left_at(now as nat),
    {
        match self.test_toast_cooldown {
            Some(cooldown_end) => {
                if cooldown_end > now {
                    Some(cooldown_end - now)
                } else {
                    None
                }
            },
            None => None,
        }
    }

    /// The milliseconds left of the cooldown, by the scheduler's clock.
    pub fn get_test_toast_cooldown_remaining(&self) -> (r: Option<u64>)
        ensures
            self.cooldown_end() is None ==> r is None,
            exists|now: nat|
                now <= MAX_TIMESTAMP_MILLIS && as_nat(r) == #[trigger] self.cooldown_left_at(now),
    {
        let now = self.timer_service.now();
        self.get_test_toast_cooldown_remaining_at(now)
    }

    /// Starts the service at the clock reading `now`, if the configuration
    /// is valid: the scheduler takes the configuration's interval and mode
    /// and starts. An invalid configuration is reported with the rule it
    /// breaks, and nothing changes.
    pub fn start_service_at(&mut self, now: u64) -> (r: Result<(), String>)
        requires
            old(self).wf(),
            now <= MAX_TIMESTAMP_MILLIS,
        ensures
            final(self).wf(),
            final(self).settings() == old(self).settings(),
            final(self).path() == old(self).path(),
            final(self).cooldown_end() == old(self).cooldown_end(),
            r is Ok <==> old(self).settings().is_valid(),
            match r {
                Ok(_) => {
                    &&& final(self).timer() == old(self).timer().reconfigured(
                        interval_millis_of(old(self).settings()),
                        old(self).settings().toaster.content_switch_mode,
                    ).started_at(now as nat)
                    &&& final(self).status() == timer_running()
                },
                Err(message) => {
                    &&& old(self).settings().validation_error() == Some(message@)
                    &&& final(self).timer() == old(self).timer()
                    &&& final(self).status() == old(self).status()
                },
            },
    {
        match self.config.validate() {
            Ok(_) => {},
            Err(message) => {
                return Err(message);
            },
        }
        self.timer_service.update_config(&self.config);
        self.timer_service.start_at(now);
        self.connection_status = "Timer Running".to_owned();
        Ok(())
    }

    /// Starts the service at the present reading of the scheduler's clock,
    /// if the configuration is valid.
    pub fn start_service(&mut self) -> (r: Result<(), String>)
        requires
            old(self).wf(),
        ensures
            final(self).wf(),
            final(self).settings() == old(self).settings(),
            final(self).path() == old(self).path(),
            final(self).cooldown_end() == old(self).cooldown_end(),
            r is Ok <==> old(self).settings().is_valid(),
            match r {
                Ok(_) => {
                    &&& exists|now: nat|
                        now <= MAX_TIMESTAMP_MILLIS && final(self).timer() == #[trigger] old(
                            self,
                        ).timer().reconfigured(
                            interval_millis_of(old(self).settings()),
                            old(self).settings().toaster.content_switch_mode,
                        ).started_at(now)
                    &&& final(self).status() == timer_running()
                },
                Err(message) => {
                    &&& old(self).settings().validation_error() == Some(message@)
                    &&& final(self).timer() == old(self).timer()
                    &&& final(self).status() == old(self).status()
                },
            },
    {
        let now = self.timer_service.now();
        let r = self.start_service_at(now);
        proof {
            if r is Ok {
                assert(self.timer() == old(self).timer().reconfigured(
                    interval_millis_of(old(self).settings()),
                    old(self).settings().toaster.content_switch_mode,
                ).started_at(now as nat));
            }
        }
        r
    }

    /// Stops the service. Only fires to come are affected.
    pub fn stop_service(&mut self)
        requires
            old(self).wf(),
        ensures
            final(self).wf(),
            final(self).settings() == old(self).settings(),
            final(self).path() == old(self).path(),
            final(self).cooldown_end() == old(self).cooldown_end(),
            final(self).timer() == old(self).timer().stopped(),
            final(self).status() == websocket_ready(),
    {
        self.timer_service.stop();
        self.connection_status = "WebSocket Ready".to_owned();
    }

    /// Where the overlay fetches the sound of a toast from.
    pub fn sound_url(&self) -> (r: Option<String>)
        ensures
            match r {
                Some(url) => sound_url_of(self.settings().toaster) == Some(url@),
                None => sound_url_of(self.settings().toaster) is None,
            },
    {
        if self.config.toaster.enable_sound {
            match &self.config.toaster.sound_file_id {
                Some(id) => Some(join("/audio/", id.as_str())),
                None => None,
            }
        } else {
            None
        }
    }

    /// The toast that shows `title` and `content` the way the configuration
    /// asks for.
    pub fn compose(&self, title: String, content: String) -> (r: WebSocketMessage)
        requires
            duration_fits(self.settings().toaster),
        ensures
            r@ == toast_of(self.settings().toaster, title@, content@),
    {
        WebSocketMessage::new_toast(
            title,
            content,
            self.config.toaster.color_1.clone(),
            self.config.toaster.color_2.clone(),
            self.config.toaster.text_color.clone(),
            self.config.toaster.duration,
            self.config.toaster.enable_sound,
            self.sound_url(),
            self.config.toaster.toast_direction,
        )
    }

    /// The toast that a test sends: the first title with the first content.
    /// There is none where the configuration names no title or no content.
    pub fn test_toast(&self) -> (r: Option<WebSocketMessage>)
        requires
            toast_fits(self.settings().toaster),
        ensures
            r is Some <==> has_content(self.settings().toaster),
            r matches Some(message) ==> message@ == toast_of(
                self.settings().toaster,
                self.settings().toaster.titles@[0]@,
                self.settings().toaster.contents@[0]@,
            ),
    {
        if self.config.toaster.titles.len() == 0 || self.config.toaster.contents.len() == 0 {
            return None;
        }
        let title = self.config.toaster.titles[0].clone();
        let content = self.config.toaster.contents[0].clone();
        Some(self.compose(title, content))
    }

    /// The toast that is due next: the scheduler picks its title and
    /// content and moves on. There is none where the configuration names no
    /// title or no content, and the scheduler then stays as it is.
    pub fn automatic_toast(&mut self) -> (r: Option<WebSocketMessage>)
        requires
            old(self).wf(),
            toast_fits(old(self).settings().toaster),
        ensures
            final(self).wf(),
            final(self).settings() == old(self).settings(),
            final(self).path() == old(self).path(),
            final(self).status() == old(self).status(),
            final(self).cooldown_end() == old(self).cooldown_end(),
            r is Some <==> has_content(old(self).settings().toaster),
            r is None ==> final(self).timer() == old(self).timer(),
            r matches Some(message) ==> {
                &&& message@ == toast_of(
                    old(self).settings().toaster,
                    message@.data.title,
                    message@.data.content,
                )
                &&& is_next_content(
                    old(self).timer(),
                    final(self).timer(),
                    old(self).settings().toaster.titles@,
                    old(self).settings().toaster.contents@,
                    message@.data.title,
                    message@.data.content,
                )
            },
    {
        if self.config.toaster.titles.len() == 0 || self.config.toaster.contents.len() == 0 {
            return None;
        }
        let (title, content) = self.timer_service.get_next_content(
            self.config.toaster.titles.as_slice(),
            self.config.toaster.contents.as_slice(),
        );
        Some(self.compose(title, content))
    }

    /// Sends a test toast at the clock reading `now`. The answer is the
    /// number of subscribers the toast went to, or `None` where there was
    /// nothing to send. The cooldown starts only if the toast went to
    /// somebody.
    pub fn send_test_toast_at(&mut self, now: u64) -> (r: Option<usize>)
        requires
            old(self).wf(),
            now <= MAX_TIMESTAMP_MILLIS,
            toast_fits(old(self).settings().toaster),
        ensures
            final(self).wf(),
            final(self).settings() == old(self).settings(),
            final(self).path() == old(self).path(),
            final(self).status() == old(self).status(),
            final(self).timer() == old(self).timer(),
            r is Some <==> has_content(old(self).settings().toaster),
            final(self).cooldown_end() == old(self).cooldown_after_test(r, now as nat),
    {
        match self.test_toast() {
            Some(message) => {
                let delivered = publish_on(&self.websocket_sender, message);
                if delivered > 0 {
                    self.test_toast_cooldown = Some(now + TEST_TOAST_COOLDOWN_MILLIS);
                }
                Some(delivered)
            },
            None => None,
        }
    }

    /// Sends a test toast at the present reading of the scheduler's clock;
    /// the cooldown starts there if the toast went to somebody.
    pub fn send_test_toast(&mut self) -> (r: Option<usize>)
        requires
            old(self).wf(),
            toast_fits(old(self).settings().toaster),
        ensures
            final(self).wf(),
            final(self).settings() == old(self).settings(),
            final(self).path() == old(self).path(),
            final(self).status() == old(self).status(),
            final(self).timer() == old(self).timer(),
            r is Some <==> has_content(old(self).settings().toaster),
            exists|now: nat|
                now <= MAX_TIMESTAMP_MILLIS && final(self).cooldown_end() == #[trigger] old(
                    self,
                ).cooldown_after_test(r, now),
    {
        let now = self.timer_service.now();
        let r = self.send_test_toast_at(now);
        assert(self.cooldown_end() == old(self).cooldown_after_test(r, now as nat));
        r
    }

    /// Sends the toast that is due next. The answer is the number of
    /// subscribers it went to, or `None` where there was nothing to send.
    pub fn send_automatic_toast(&mut self) -> (r: Option<usize>)
        requires
            old(self).wf(),
            toast_fits(old(self).settings().toaster),
        ensures
            final(self).wf(),
            final(self).settings() == old(self).settings(),
            final(self).path() == old(self).path(),
            final(self).status() == old(self).status(),
            final(self).cooldown_end() == old(self).cooldown_end(),
            r is Some <==> has_content(old(self).settings().toaster),
            r is None ==> final(self).timer() == old(self).timer(),
            r is Some ==> exists|title: Seq<char>, content: Seq<char>| #[trigger]
                is_next_content(
                    old(self).timer(),
                    final(self).timer(),
                    old(self).settings().toaster.titles@,
                    old(self).settings().toaster.contents@,
                    title,
                    content,
                ),
    {
        match self.automatic_toast() {
            Some(message) => {
                proof {
                    assert(is_next_content(
                        old(self).timer(),
                        self.timer(),
                        old(self).settings().toaster.titles@,
                        old(self).settings().toaster.contents@,
                        message@.data.title,
                        message@.data.content,
                    ));
                }
                Some(publish_on(&self.websocket_sender, message))
            },
            None => None,
        }
    }

    /// Asks at the clock reading `now` whether a toast is due. A cooldown
    /// that is over is cleared, and a due toast re-arms the scheduler;
    /// nothing is sent.
    pub fn poll_at(&mut self, now: u64) -> (fired: bool)
        requires
            old(self).wf(),
            now <= MAX_TIMESTAMP_MILLIS,
        ensures
            final(self).wf(),
            final(self).settings() == old(self).settings(),
            final(self).path() == old(self).path(),
            final(self).status() == old(self).status(),
            old(self).is_poll_at(*final(self), fired, now as nat),
    {
        match self.test_toast_cooldown {
            Some(cooldown_end) => {
                if now >= cooldown_end {
                    self.test_toast_cooldown = None;
                }
            },
            None => {},
        }
        self.timer_service.should_send_toast_at(now)
    }

    /// Asks at the present reading of the scheduler's clock whether a toast
    /// is due.
    pub fn poll(&mut self) -> (fired: bool)
        requires
            old(self).wf(),
        ensures
            final(self).wf(),
            final(self).settings() == old(self).settings(),
            final(self).path() == old(self).path(),
            final(self).status() == old(self).status(),
            !old(self).timer().running ==> !fired && final(self).timer() == old(self).timer(),
            exists|now: nat|
                now <= MAX_TIMESTAMP_MILLIS && #[trigger] old(self).is_poll_at(
                    *final(self),
                    fired,
                    now,
                ),
    {
        let now = self.timer_service.now();
        let fired = self.poll_at(now);
        assert(old(self).is_poll_at(*self, fired, now as nat));
        fired
    }

    /// One turn of the host's loop at the clock reading `now`: a cooldown
    /// that is over is cleared, and if the service runs and a toast is due,
    /// the scheduler is re-armed and the toast is sent. The answer says
    /// whether a toast was due.
    pub fn tick_at(&mut self, now: u64) -> (fired: bool)
        requires
            old(self).wf(),
            now <= MAX_TIMESTAMP_MILLIS,
            toast_fits(old(self).settings().toaster),
        ensures
            final(self).wf(),
            final(self).settings() == old(self).settings(),
            final(self).path() == old(self).path(),
            final(self).status() == old(self).status(),
            old(self).is_tick_at(*final(self), fired, now as nat),
    {
        if self.poll_at(now) {
            let _ = self.send_automatic_toast();
            true
        } else {
            false
        }
    }

    /// One turn of the host's loop at the present reading of the
    /// scheduler's clock.
    pub fn tick(&mut self) -> (fired: bool)
        requires
            old(self).wf(),
            toast_fits(old(self).settings().toaster),
        ensures
            final(self).wf(),
            final(self).settings() == old(self).settings(),
            final(self).path() == old(self).path(),
            final(self).status() == old(self).status(),
            !old(self).timer().running ==> !fired && final(self).timer() == old(self).timer(),
            exists|now: nat|
                now <= MAX_TIMESTAMP_MILLIS && #[trigger] old(self).is_tick_at(
                    *final(self),
                    fired,
                    now,
                ),
    {
        let now = self.timer_service.now();
        let fired = self.tick_at(now);
        assert(old(self).is_tick_at(*self, fired, now as nat));
        fired
    }
}

/// The sound of a toast is fetched from the path under which the audio
/// server answers for the chosen file: `/audio/` and the file's identifier.
pub proof fn lemma_sound_url_names_the_asset(t: ToasterConfig)
    requires
        t.enable_sound,
        t.sound_file_id is Some,
    ensures
        sound_url_of(t) == Some(crate::http_server::audio_prefix() + t.sound_file_id->0@),
        crate::http_server::route_of(sound_url_of(t)->0) == crate::http_server::RouteView::Audio(
            t.sound_file_id->0@,
        ),
{
    crate::http_server::lemma_audio_route(t.sound_file_id->0@);
}

} // verus!
