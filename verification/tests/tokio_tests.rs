use oshima::dispatch::call_hook;
use oshima::error::{delivery_outcome, reply_outcome};
use oshima::lifecycle::{ActorLoop, LoopAction, LoopEvent};
use oshima::tokio_backend::runtime::DEFAULT_MAILBOX_SIZE;
use oshima::tokio_backend::{TokioEnvelope, TokioEnvelopeInner};
use oshima::{Actor, ActorBase, ActorContext, Handler, Message, SendError};
use oshima::{TokioAddr, TokioContext, TokioRuntime};

type Mailbox<A> = tokio::sync::mpsc::Receiver<Box<dyn TokioEnvelope<A>>>;

async fn drive<A>(mut actor: A, mut rx: Mailbox<A>) -> A
where
    A: ActorBase + Actor<TokioContext<A>> + Send + 'static,
{
    let mut ctx = TokioContext::new();
    let mut lifecycle = ActorLoop::new();
    let mut event = LoopEvent::Begin;
    loop {
        let action = lifecycle.step(event).expect("the loop refused an event it asked for");
        let answer = match action {
            LoopAction::Receive { fresh_context } => {
                TokioRuntime::prepare_receive(fresh_context, &mut ctx);
                let received = rx.recv().await;
                Some(TokioRuntime::deliver(received, &mut actor, &mut ctx))
            }
            _ => call_hook(action, &mut actor, &mut ctx),
        };
        match answer {
            Some(answer) => event = answer,
            None => return actor,
        }
    }
}

fn spawn<A>(actor: A) -> TokioAddr<A>
where
    A: ActorBase + Actor<TokioContext<A>> + Send + 'static,
{
    let (addr, rx) = TokioRuntime::open_mailbox::<A>(DEFAULT_MAILBOX_SIZE);
    tokio::spawn(async move {
        drive(actor, rx).await;
    });
    addr
}

async fn send<A, M>(addr: &TokioAddr<A>, msg: M) -> Result<M::Result, SendError>
where
    A: ActorBase + Actor<TokioContext<A>> + Handler<TokioContext<A>, M> + Send + 'static,
    M: Message + Send + 'static,
    M::Result: Send + 'static,
{
    let (reply_tx, reply_rx) = tokio::sync::oneshot::channel();
    let envelope: Box<dyn TokioEnvelope<A>> = Box::new(TokioEnvelopeInner::<A, M>::with_reply(msg, reply_tx));
    let delivered = addr.sender().send(envelope).await.is_ok();
    let reply = if delivered { reply_rx.await.ok() } else { None };
    reply_outcome(delivered, reply)
}

async fn do_send<A, M>(addr: &TokioAddr<A>, msg: M) -> Result<(), SendError>
where
    A: ActorBase + Actor<TokioContext<A>> + Handler<TokioContext<A>, M> + Send + 'static,
    M: Message + Send + 'static,
    M::Result: Send + 'static,
{
    let envelope: Box<dyn TokioEnvelope<A>> = Box::new(TokioEnvelopeInner::<A, M>::new(msg));
    let delivered = addr.sender().send(envelope).await.is_ok();
    delivery_outcome(delivered)
}

fn block_on<F: std::future::Future>(f: F) -> F::Output {
    tokio::runtime::Builder::new_current_thread().enable_all().build().unwrap().block_on(f)
}

pub struct Counter {
    pub value: u32,
}

impl Counter {
    pub fn new(v: u32) -> Self {
        Self { value: v }
    }
}

impl ActorBase for Counter {}

pub struct Add(pub u32);
impl Message for Add {
    type Result = u32;
}

pub struct Sub(pub u32);
impl Message for Sub {
    type Result = u32;
}

pub struct GetValue;
impl Message for GetValue {
    type Result = u32;
}

pub struct Reset;
impl Message for Reset {
    type Result = ();
}

pub struct StopSelf;
impl Message for StopSelf {
    type Result = ();
}

impl<C: ActorContext<Self>> Actor<C> for Counter {}

impl<C: ActorContext<Self>> Handler<C, Add> for Counter {
    fn handle(&mut self, msg: Add, _ctx: &mut C) -> u32 {
        self.value += msg.0;
        self.value
    }
}

impl<C: ActorContext<Self>> Handler<C, Sub> for Counter {
    fn handle(&mut self, msg: Sub, _ctx: &mut C) -> u32 {
        self.value = self.value.saturating_sub(msg.0);
        self.value
    }
}

impl<C: ActorContext<Self>> Handler<C, GetValue> for Counter {
    fn handle(&mut self, _msg: GetValue, _ctx: &mut C) -> u32 {
        self.value
    }
}

impl<C: ActorContext<Self>> Handler<C, Reset> for Counter {
    fn handle(&mut self, _msg: Reset, _ctx: &mut C) {
        self.value = 0;
    }
}

impl<C: ActorContext<Self>> Handler<C, StopSelf> for Counter {
    fn handle(&mut self, _msg: StopSelf, ctx: &mut C) {
        ctx.stop();
    }
}

pub struct Echo;
impl ActorBase for Echo {}

pub struct EchoMsg(pub String);
impl Message for EchoMsg {
    type Result = String;
}

impl<C: ActorContext<Self>> Actor<C> for Echo {}

impl<C: ActorContext<Self>> Handler<C, EchoMsg> for Echo {
    fn handle(&mut self, msg: EchoMsg, _ctx: &mut C) -> String {
        msg.0
    }
}

pub struct Accumulator {
    pub items: Vec<u32>,
}
impl ActorBase for Accumulator {}

pub struct Push(pub u32);
impl Message for Push {
    type Result = ();
}

pub struct Flush;
impl Message for Flush {
    type Result = Vec<u32>;
}

impl<C: ActorContext<Self>> Actor<C> for Accumulator {}

impl<C: ActorContext<Self>> Handler<C, Push> for Accumulator {
    fn handle(&mut self, msg: Push, _ctx: &mut C) {
        self.items.push(msg.0);
    }
}

impl<C: ActorContext<Self>> Handler<C, Flush> for Accumulator {
    fn handle(&mut self, _msg: Flush, _ctx: &mut C) -> Vec<u32> {
        std::mem::take(&mut self.items)
    }
}

#[test]
fn tokio_counter_add() {
    block_on(async {
        let addr = spawn(Counter::new(0));
        let result = send(&addr, Add(5)).await.expect("send failed");
        assert_eq!(result, 5);
    });
}

#[test]
fn tokio_counter_sequential_messages() {
    block_on(async {
        let addr = spawn(Counter::new(0));
        assert_eq!(send(&addr, Add(10)).await.unwrap(), 10);
        assert_eq!(send(&addr, Add(5)).await.unwrap(), 15);
        assert_eq!(send(&addr, Sub(3)).await.unwrap(), 12);
        assert_eq!(send(&addr, GetValue).await.unwrap(), 12);
    });
}

#[test]
fn tokio_counter_reset() {
    block_on(async {
        let addr = spawn(Counter::new(100));
        send(&addr, Reset).await.unwrap();
        assert_eq!(send(&addr, GetValue).await.unwrap(), 0);
    });
}

#[test]
fn tokio_counter_saturating_sub() {
    block_on(async {
        let addr = spawn(Counter::new(3));
        let result = send(&addr, Sub(100)).await.unwrap();
        assert_eq!(result, 0, "subtraction should saturate at zero");
    });
}

#[test]
fn tokio_multiple_independent_actors() {
    block_on(async {
        let a = spawn(Counter::new(0));
        let b = spawn(Counter::new(100));
        send(&a, Add(10)).await.unwrap();
        send(&b, Sub(50)).await.unwrap();
        assert_eq!(send(&a, GetValue).await.unwrap(), 10);
        assert_eq!(send(&b, GetValue).await.unwrap(), 50);
    });
}

#[test]
fn tokio_cloned_addresses_share_actor() {
    block_on(async {
        let addr1 = spawn(Counter::new(0));
        let addr2 = addr1.clone();
        send(&addr1, Add(7)).await.unwrap();
        send(&addr2, Add(3)).await.unwrap();
        assert_eq!(send(&addr1, GetValue).await.unwrap(), 10);
    });
}

#[test]
fn tokio_actor_stops_via_context() {
    block_on(async {
        let addr = spawn(Counter::new(0));
        send(&addr, StopSelf).await.unwrap();
        tokio::time::sleep(std::time::Duration::from_millis(50)).await;
        let result = send(&addr, GetValue).await;
        assert!(result.is_err(), "actor should have stopped");
    });
}

#[test]
fn tokio_do_send_fire_and_forget() {
    block_on(async {
        let addr = spawn(Counter::new(0));
        do_send(&addr, Add(42)).await.unwrap();
        let value = send(&addr, GetValue).await.unwrap();
        assert_eq!(value, 42);
    });
}

#[test]
fn tokio_echo_actor() {
    block_on(async {
        let addr = spawn(Echo);
        let msg = "Hello async Oshima!".to_string();
        let reply = send(&addr, EchoMsg(msg.clone())).await.unwrap();
        assert_eq!(reply, msg);
    });
}

#[test]
fn tokio_accumulator_batch_and_flush() {
    block_on(async {
        let addr = spawn(Accumulator { items: vec![] });
        for i in 0..5 {
            do_send(&addr, Push(i)).await.unwrap();
        }
        let items = send(&addr, Flush).await.unwrap();
        assert_eq!(items, vec![0, 1, 2, 3, 4]);
    });
}

#[test]
fn tokio_concurrent_senders() {
    block_on(async {
        let addr = spawn(Counter::new(0));
        let handles: Vec<_> = (0..10)
            .map(|_| {
                let a = addr.clone();
                tokio::spawn(async move {
                    send(&a, Add(1)).await.unwrap();
                })
            })
            .collect();
        for h in handles {
            h.await.unwrap();
        }
        let total = send(&addr, GetValue).await.unwrap();
        assert_eq!(total, 10);
    });
}

#[test]
fn tokio_try_send_succeeds_when_room() {
    block_on(async {
        let addr = spawn(Counter::new(0));
        addr.try_send(Add(1)).expect("mailbox should have room");
        let value = send(&addr, GetValue).await.unwrap();
        assert_eq!(value, 1);
    });
}

#[test]
fn tokio_try_send_to_full_mailbox_is_mailbox_full() {
    let (addr, _rx) = TokioRuntime::open_mailbox::<Counter>(1);
    assert_eq!(addr.try_send(Add(1)), Ok(()));
    assert_eq!(addr.try_send(Add(2)), Err(SendError::MailboxFull));
}

#[test]
fn tokio_try_send_to_closed_mailbox_is_actor_stopped() {
    let (addr, rx) = TokioRuntime::open_mailbox::<Counter>(4);
    drop(rx);
    assert_eq!(addr.try_send(Add(1)), Err(SendError::ActorStopped));
}

#[test]
fn tokio_envelope_delivers_and_replies() {
    let mut counter = Counter::new(2);
    let mut ctx = TokioContext::new();
    let (tx, mut rx) = tokio::sync::oneshot::channel();
    let envelope: Box<dyn TokioEnvelope<Counter>> =
        Box::new(TokioEnvelopeInner::<Counter, Add>::with_reply(Add(3), tx));
    envelope.handle(&mut counter, &mut ctx);
    assert_eq!(counter.value, 5);
    assert_eq!(rx.try_recv(), Ok(5));
}

#[test]
fn tokio_drained_mailbox_runs_to_the_end() {
    let (addr, rx) = TokioRuntime::open_mailbox::<Counter>(4);
    addr.try_send(Add(3)).unwrap();
    addr.try_send(Add(4)).unwrap();
    drop(addr);
    let counter = block_on(drive(Counter::new(0), rx));
    assert_eq!(counter.value, 7);
}
