# Laundry Bot

Monitors the current of a drier's circuit over MQTT, tells main dry and fluff dry cycles
apart by their timing, and reports through Discord and Prometheus.

- `src/`: the decisions, verified with Verus. No input or output.
  - `reading`: what a current reading says about the drier
  - `monitor`: the state machine
  - `broker`: what traffic on the broker connection means to it
  - `config`: settings from environment variables
  - `clock`, `drier`: time spans and vocabulary
  - `laws`, `history`: what holds of the monitor as a whole and over time
- `app/`: the service around it: MQTT, Discord, Prometheus, the clock, logging.
- `tests/`: tests of the library.

## Configuration

| Variable | Default |
| --- | --- |
| `MQTT_HOST` | `localhost` |
| `MQTT_PORT` | `1883` |
| `MQTT_TOPIC` | `EnergyMonitor/port14/current` |
| `DISCORD_BOT_TOKEN` | none: no Discord |
| `DISCORD_CHANNEL_ID` | none: no messages |
| `METRIC_TIMEOUT_SECS` | `60` |
| `RUST_LOG` | `info` |

`RUST_LOG` takes the usual filters, such as `info`, `debug` or `laundry_bot=debug`. The
serenity crate is held to `warn`.

## State machine

The state follows the current readings and the connection:

- **Unknown**: where the service starts. The first reading settles the state: 1 A or more
  means On, and the cycle counts from there; less means Off.
- **Off**: less than 1 A. At 1 A or more a cycle starts. Outside the fluff window the start
  of a main dry is announced at once; inside it the length has to tell first.
- **On**: 1 A or more. A cycle that is found running for more than 30 seconds and was not
  announced yet is announced as a main dry. Below 1 A the cycle ends and is classified.
- **NoConnection**: the broker is not connected, or nothing was heard for more than
  2 minutes. When the connection is back, so is the state from before.

A reading that is not a number (NaN) neither starts nor stops a cycle. The connection is
looked at every 30 seconds and before each reading. A broken connection is made anew after
5 seconds.

### Classification

- **Main dry**: longer than 30 seconds.
- **Fluff dry**: 15 to 30 seconds, ending within 10 minutes of the end of the last cycle
  that counted.
- Everything else does not count: no notification, and no fluff window. A cycle shorter than
  15 seconds is a false start.

## Discord notifications

With a token and a channel, these are sent:

- **Main dry cycle started**: at once outside the fluff window, else when the cycle is found
  past 30 seconds.
- **Main dry cycle complete**: when a main dry ends.
- **Fluff dry cycle complete**: when a fluff dry has ended.
- **The drier is idle**: when the first reading of all finds it off.

With a token, the bot's presence shows the state and the running cycle.

## Prometheus metrics

Served on port 9090 at `/metrics`:

- `drier_state`: 0=Unknown, 1=Off, 2=On, 3=NoConnection

## Log

```
INFO Connecting to MQTT broker at localhost:1883
INFO Cycle ON - Current detected: 5.23A
INFO Cycle COMPLETED - Duration: 31.2s - Current dropped below threshold: 0.45A
INFO Cycle classified as MainDry
```
